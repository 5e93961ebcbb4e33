//! Download bookkeeping: the request/result shapes and the rule that picks a
//! file name — the requested name first, then one parsed out of a
//! `Content-Disposition` header, then the final URL path segment, then
//! `download`.

use vstd::prelude::*;
use vstd::string::StringExecFns;

use crate::text::{
    chars_match_at, chars_to_string, contains_at, lemma_trim_end_any, lemma_trim_start_any,
    str_chars, subvec, trim_any,
};

verus! {

/// A requested download.
#[derive(Debug, Clone, PartialEq)]
pub struct DownloadRequest {
    pub url: String,
    pub filename: Option<String>,
    pub save_directory: Option<String>,
}

/// Outcome of a download.
#[derive(Debug, Clone, PartialEq)]
pub struct DownloadResult {
    pub success: bool,
    pub file_path: Option<String>,
    pub message: String,
}

/// The first index at or after `i` where `p` occurs in `s`, or `-1`.
pub open spec fn find_first_from(s: Seq<char>, p: Seq<char>, i: int) -> int
    decreases s.len() - i
        when 0 <= i <= s.len()
{
    if i + p.len() > s.len() {
        -1
    } else if contains_at(s, p, i) {
        i
    } else if i == s.len() {
        -1
    } else {
        find_first_from(s, p, i + 1)
    }
}

/// The quotation mark trimmed off a parsed file name.
pub open spec fn quote_chars() -> Set<char> {
    set!['"']
}

/// The marker that introduces a file name in a `Content-Disposition` header.
pub open spec fn disposition_sep() -> Seq<char> {
    "filename="@
}

/// The file name carried by a `Content-Disposition` header value: the text
/// between the first `filename=` and the next one (or the end), with
/// quotation marks trimmed off both ends; `None` when no `filename=` occurs.
pub open spec fn spec_filename_from_disposition(v: Seq<char>) -> Option<Seq<char>> {
    let i = find_first_from(v, disposition_sep(), 0);
    if i < 0 {
        None
    } else {
        let rest = v.subrange(i + disposition_sep().len(), v.len() as int);
        let j = find_first_from(rest, disposition_sep(), 0);
        let seg = if j < 0 {
            rest
        } else {
            rest.subrange(0, j)
        };
        Some(trim_any(seg, quote_chars()))
    }
}

/// The first occurrence of `p` in `v`.
fn find_first(v: &Vec<char>, p: &Vec<char>) -> (r: Option<usize>)
    ensures
        r is None ==> find_first_from(v@, p@, 0) == -1,
        r is Some ==> r.unwrap() as int == find_first_from(v@, p@, 0) && contains_at(
            v@,
            p@,
            r.unwrap() as int,
        ),
{
    if p.len() > v.len() {
        return None;
    }
    let n = v.len() - p.len();
    let mut i: usize = 0;
    while i < n
        invariant
            p@.len() <= v@.len(),
            n == v@.len() - p@.len(),
            i <= n,
            find_first_from(v@, p@, 0) == find_first_from(v@, p@, i as int),
        decreases n - i,
    {
        if chars_match_at(v, p, i) {
            return Some(i);
        }
        i += 1;
    }
    if chars_match_at(v, p, n) {
        return Some(n);
    }
    proof {
        if p@.len() == 0 {
            assert(v@.subrange(n as int, n as int) =~= p@);
            assert(contains_at(v@, p@, n as int));
        }
        assert(find_first_from(v@, p@, n as int) == find_first_from(v@, p@, n + 1));
        assert(find_first_from(v@, p@, n + 1) == -1);
    }
    None
}

/// Trim quotation marks off both ends.
fn trim_quote_chars(v: &Vec<char>) -> (r: Vec<char>)
    ensures
        r@ == trim_any(v@, quote_chars()),
{
    let mut lo: usize = 0;
    while lo < v.len() && v[lo] == '"'
        invariant
            lo <= v@.len(),
            forall|k: int| 0 <= k < lo ==> quote_chars().contains(v@[k]),
        decreases v@.len() - lo,
    {
        lo += 1;
    }
    let mut hi: usize = v.len();
    while hi > lo && v[hi - 1] == '"'
        invariant
            lo <= hi <= v@.len(),
            forall|k: int| hi <= k < v@.len() ==> quote_chars().contains(v@[k]),
        decreases hi,
    {
        hi -= 1;
    }
    proof {
        lemma_trim_start_any(v@, quote_chars(), lo as int);
        let t = v@.subrange(lo as int, v@.len() as int);
        assert forall|k: int| hi - lo <= k < t.len() implies quote_chars().contains(t[k]) by {
            assert(t[k] == v@[lo + k]);
        }
        lemma_trim_end_any(t, quote_chars(), hi - lo);
        assert(t.subrange(0, hi - lo) =~= v@.subrange(lo as int, hi as int));
    }
    subvec(v, lo, hi)
}

/// Parse the file name out of a `Content-Disposition` header value.
pub fn filename_from_disposition(header: &str) -> (r: Option<String>)
    ensures
        r is Some <==> spec_filename_from_disposition(header@) is Some,
        r is Some ==> r.unwrap()@ == spec_filename_from_disposition(header@).unwrap(),
{
    let hc = str_chars(header);
    let sep = str_chars("filename=");
    match find_first(&hc, &sep) {
        None => None,
        Some(i) => {
            let hl = hc.len();
            assert(i + sep@.len() <= hl);
            let rest = subvec(&hc, i + sep.len(), hc.len());
            let seg = match find_first(&rest, &sep) {
                None => rest,
                Some(j) => subvec(&rest, 0, j),
            };
            let trimmed = trim_quote_chars(&seg);
            Some(chars_to_string(&trimmed))
        },
    }
}

/// The final path segment of a URL, as the `url` crate parses it.
pub uninterp spec fn url_final_segment(u: Seq<char>) -> Option<Seq<char>>;

/// The view of an optional string.
pub open spec fn option_str_view(o: Option<String>) -> Option<Seq<char>> {
    match o {
        Some(s) => Some(s@),
        None => None,
    }
}

/// Relies on `url::Url::parse` and `url::Url::path_segments`: the final path
/// segment of a parsed URL is a function of the URL string alone.
#[verifier::external_body]
fn url_last_path_segment(u: &str) -> (r: Option<String>)
    ensures
        option_str_view(r) == url_final_segment(u@),
{
    url::Url::parse(u).ok().and_then(
        |parsed| parsed.path_segments().and_then(|segs| segs.last().map(|s| s.to_string())),
    )
}

/// Pick the name a download is saved under: the requested name first, then
/// one parsed out of the `Content-Disposition` header, then the final URL
/// path segment, then `download`.
pub fn choose_filename(requested: Option<&String>, disposition: Option<&String>, url: &str) -> (r:
    String)
    ensures
        requested is Some ==> r@ == requested.unwrap()@,
        requested is None && disposition is Some && spec_filename_from_disposition(
            disposition.unwrap()@,
        ) is Some ==> r@ == spec_filename_from_disposition(disposition.unwrap()@).unwrap(),
        requested is None && (disposition is None || spec_filename_from_disposition(
            disposition.unwrap()@,
        ) is None) ==> (url_final_segment(url@) is Some ==> r@ == url_final_segment(url@).unwrap())
            && (url_final_segment(url@) is None ==> r@ == "download"@),
{
    match requested {
        Some(name) => name.clone(),
        None => {
            let from_header = match disposition {
                Some(h) => filename_from_disposition(h.as_str()),
                None => None,
            };
            match from_header {
                Some(f) => f,
                None => match url_last_path_segment(url) {
                    Some(s) => s,
                    None => String::from_str("download"),
                },
            }
        },
    }
}

} // verus!
