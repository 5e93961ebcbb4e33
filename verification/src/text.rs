//! Verified text primitives used by the matching logic: ASCII case folding,
//! substring/prefix/suffix search, whitespace trimming and comma splitting,
//! all specified over `Seq<char>`.

use vstd::prelude::*;
use vstd::string::StrSliceExecFns;

verus! {

// ===== ASCII case folding =====

/// ASCII-fold one character: `'A'..='Z'` map to `'a'..='z'`, all else unchanged.
pub open spec fn lower_char(c: char) -> char {
    if 65 <= c as u32 && c as u32 <= 90 {
        (((c as u32) + 32) as u8) as char
    } else {
        c
    }
}

/// ASCII-fold a character sequence.
pub open spec fn lower_seq(s: Seq<char>) -> Seq<char> {
    s.map_values(|c: char| lower_char(c))
}

pub fn lower_char_exec(c: char) -> (r: char)
    ensures
        r == lower_char(c),
{
    let u = c as u32;
    if 65 <= u && u <= 90 {
        ((u + 32) as u8) as char
    } else {
        c
    }
}

pub proof fn lemma_lower_char_idempotent(c: char)
    ensures
        lower_char(lower_char(c)) == lower_char(c),
{
}

pub proof fn lemma_lower_seq_idempotent(s: Seq<char>)
    ensures
        lower_seq(lower_seq(s)) == lower_seq(s),
{
    assert forall|i: int| 0 <= i < s.len() implies lower_seq(lower_seq(s))[i] == lower_seq(s)[i] by {
        lemma_lower_char_idempotent(s[i]);
    }
    assert(lower_seq(lower_seq(s)) =~= lower_seq(s));
}

// ===== conversions =====

/// Collect the characters of a string slice.
pub fn str_chars(s: &str) -> (r: Vec<char>)
    ensures
        r@ == s@,
{
    let n = s.unicode_len();
    let mut r: Vec<char> = Vec::new();
    let mut i: usize = 0;
    while i < n
        invariant
            n == s@.len(),
            i <= n,
            r@.len() == i,
            forall|k: int| 0 <= k < i ==> r@[k] == s@[k],
        decreases n - i,
    {
        r.push(s.get_char(i));
        i += 1;
    }
    assert(r@ =~= s@);
    r
}

pub fn lower_chars(v: &Vec<char>) -> (r: Vec<char>)
    ensures
        r@ == lower_seq(v@),
{
    let mut r: Vec<char> = Vec::new();
    let mut i: usize = 0;
    while i < v.len()
        invariant
            i <= v@.len(),
            r@.len() == i,
            forall|k: int| 0 <= k < i ==> r@[k] == lower_char(v@[k]),
        decreases v@.len() - i,
    {
        r.push(lower_char_exec(v[i]));
        i += 1;
    }
    assert(r@ =~= lower_seq(v@));
    r
}

/// Copy the range `[from, to)` of a character vector.
pub fn subvec(v: &Vec<char>, from: usize, to: usize) -> (r: Vec<char>)
    requires
        from <= to,
        to <= v@.len(),
    ensures
        r@ == v@.subrange(from as int, to as int),
{
    let mut r: Vec<char> = Vec::new();
    let mut i: usize = from;
    while i < to
        invariant
            from <= i <= to,
            to <= v@.len(),
            r@.len() == i - from,
            forall|k: int| 0 <= k < r@.len() ==> r@[k] == v@[from + k],
        decreases to - i,
    {
        r.push(v[i]);
        i += 1;
    }
    assert(r@ =~= v@.subrange(from as int, to as int));
    r
}

// ===== equality, prefix, suffix, containment =====

pub fn chars_eq(a: &Vec<char>, b: &Vec<char>) -> (r: bool)
    ensures
        r == (a@ == b@),
{
    if a.len() != b.len() {
        return false;
    }
    let mut i: usize = 0;
    while i < a.len()
        invariant
            a@.len() == b@.len(),
            i <= a@.len(),
            forall|k: int| 0 <= k < i ==> a@[k] == b@[k],
        decreases a@.len() - i,
    {
        if a[i] != b[i] {
            return false;
        }
        i += 1;
    }
    assert(a@ =~= b@);
    true
}

/// Character-wise string equality.
pub fn str_eq(a: &str, b: &str) -> (r: bool)
    ensures
        r == (a@ == b@),
{
    let ac = str_chars(a);
    let bc = str_chars(b);
    chars_eq(&ac, &bc)
}

/// `p` occurs in `s` starting at index `i`.
pub open spec fn contains_at(s: Seq<char>, p: Seq<char>, i: int) -> bool {
    0 <= i && i + p.len() <= s.len() && s.subrange(i, i + p.len() as int) == p
}

/// `p` occurs somewhere in `s`.
pub open spec fn contains_seq(s: Seq<char>, p: Seq<char>) -> bool {
    exists|i: int| contains_at(s, p, i)
}

pub open spec fn has_prefix(s: Seq<char>, p: Seq<char>) -> bool {
    p.len() <= s.len() && s.subrange(0, p.len() as int) == p
}

pub open spec fn has_suffix(s: Seq<char>, p: Seq<char>) -> bool {
    p.len() <= s.len() && s.subrange(s.len() - p.len(), s.len() as int) == p
}

pub fn chars_match_at(s: &Vec<char>, p: &Vec<char>, i: usize) -> (r: bool)
    requires
        i + p@.len() <= s@.len(),
    ensures
        r == contains_at(s@, p@, i as int),
{
    let slen = s.len();
    let mut j: usize = 0;
    while j < p.len()
        invariant
            i + p@.len() <= s@.len(),
            slen == s@.len(),
            j <= p@.len(),
            forall|l: int| 0 <= l < j ==> s@[i + l] == p@[l],
        decreases p@.len() - j,
    {
        if s[i + j] != p[j] {
            assert(!contains_at(s@, p@, i as int)) by {
                if s@.subrange(i as int, i + p@.len() as int) == p@ {
                    assert(s@.subrange(i as int, i + p@.len() as int)[j as int] == s@[i + j]);
                }
            }
            return false;
        }
        j += 1;
    }
    assert(s@.subrange(i as int, i + p@.len() as int) =~= p@);
    true
}

pub fn chars_has_prefix(s: &Vec<char>, p: &Vec<char>) -> (r: bool)
    ensures
        r == has_prefix(s@, p@),
{
    if p.len() > s.len() {
        return false;
    }
    chars_match_at(s, p, 0)
}

pub fn chars_has_suffix(s: &Vec<char>, p: &Vec<char>) -> (r: bool)
    ensures
        r == has_suffix(s@, p@),
{
    if p.len() > s.len() {
        return false;
    }
    chars_match_at(s, p, s.len() - p.len())
}

pub fn chars_contains(s: &Vec<char>, p: &Vec<char>) -> (r: bool)
    ensures
        r == contains_seq(s@, p@),
{
    if p.len() > s.len() {
        assert(forall|i: int| !contains_at(s@, p@, i));
        return false;
    }
    let n = s.len() - p.len();
    let mut i: usize = 0;
    while i < n
        invariant
            p@.len() <= s@.len(),
            n == s@.len() - p@.len(),
            i <= n,
            forall|k: int| 0 <= k < i ==> !contains_at(s@, p@, k),
        decreases n - i,
    {
        if chars_match_at(s, p, i) {
            assert(contains_at(s@, p@, i as int));
            return true;
        }
        i += 1;
    }
    if chars_match_at(s, p, n) {
        assert(contains_at(s@, p@, n as int));
        return true;
    }
    assert forall|k: int| !contains_at(s@, p@, k) by {
        if 0 <= k < n {
            assert(!contains_at(s@, p@, k));
        }
    }
    false
}

/// Relies on `String::push`: appends one character.
#[verifier::external_body]
fn push_char(s: &mut String, c: char)
    ensures
        final(s)@ == old(s)@.push(c),
{
    s.push(c);
}

/// Collect a character vector back into a string.
pub fn chars_to_string(v: &Vec<char>) -> (r: String)
    ensures
        r@ == v@,
{
    let mut r = String::new();
    let mut i: usize = 0;
    while i < v.len()
        invariant
            i <= v@.len(),
            r@.len() == i,
            forall|k: int| 0 <= k < i ==> r@[k] == v@[k],
        decreases v@.len() - i,
    {
        push_char(&mut r, v[i]);
        i += 1;
    }
    assert(r@ =~= v@);
    r
}

// ===== trimming =====

/// The characters counted as whitespace when a pattern token is trimmed.
pub open spec fn space_chars() -> Set<char> {
    set![' ', '\t', '\n', '\r']
}

pub open spec fn trim_start_any(s: Seq<char>, cs: Set<char>) -> Seq<char>
    decreases s.len(),
{
    if s.len() > 0 && cs.contains(s[0]) {
        trim_start_any(s.drop_first(), cs)
    } else {
        s
    }
}

pub open spec fn trim_end_any(s: Seq<char>, cs: Set<char>) -> Seq<char>
    decreases s.len(),
{
    if s.len() > 0 && cs.contains(s.last()) {
        trim_end_any(s.drop_last(), cs)
    } else {
        s
    }
}

/// Remove leading and trailing characters drawn from `cs`.
pub open spec fn trim_any(s: Seq<char>, cs: Set<char>) -> Seq<char> {
    trim_end_any(trim_start_any(s, cs), cs)
}

/// Remove leading and trailing whitespace.
pub open spec fn trim_spaces(s: Seq<char>) -> Seq<char> {
    trim_any(s, space_chars())
}

pub proof fn lemma_trim_start_any(s: Seq<char>, cs: Set<char>, lo: int)
    requires
        0 <= lo <= s.len(),
        forall|k: int| 0 <= k < lo ==> cs.contains(s[k]),
        lo < s.len() ==> !cs.contains(s[lo]),
    ensures
        trim_start_any(s, cs) == s.subrange(lo, s.len() as int),
    decreases lo,
{
    if lo == 0 {
        assert(s.subrange(0, s.len() as int) =~= s);
    } else {
        assert(cs.contains(s[0]));
        lemma_trim_start_any(s.drop_first(), cs, lo - 1);
        assert(s.drop_first().subrange(lo - 1, s.drop_first().len() as int) =~= s.subrange(
            lo,
            s.len() as int,
        ));
    }
}

pub proof fn lemma_trim_end_any(s: Seq<char>, cs: Set<char>, hi: int)
    requires
        0 <= hi <= s.len(),
        forall|k: int| hi <= k < s.len() ==> cs.contains(s[k]),
        hi > 0 ==> !cs.contains(s[hi - 1]),
    ensures
        trim_end_any(s, cs) == s.subrange(0, hi),
    decreases s.len() - hi,
{
    if hi == s.len() {
        assert(s.subrange(0, s.len() as int) =~= s);
    } else {
        assert(cs.contains(s.last()));
        lemma_trim_end_any(s.drop_last(), cs, hi);
        assert(s.drop_last().subrange(0, hi) =~= s.subrange(0, hi));
    }
}

fn is_space_exec(c: char) -> (r: bool)
    ensures
        r == space_chars().contains(c),
{
    let r = c == ' ' || c == '\t' || c == '\n' || c == '\r';
    assert(r == space_chars().contains(c));
    r
}

/// Copy `v` with leading and trailing whitespace removed.
pub fn trim_space_chars(v: &Vec<char>) -> (r: Vec<char>)
    ensures
        r@ == trim_spaces(v@),
{
    let mut lo: usize = 0;
    while lo < v.len() && is_space_exec(v[lo])
        invariant
            lo <= v@.len(),
            forall|k: int| 0 <= k < lo ==> space_chars().contains(v@[k]),
        decreases v@.len() - lo,
    {
        lo += 1;
    }
    let mut hi: usize = v.len();
    while hi > lo && is_space_exec(v[hi - 1])
        invariant
            lo <= hi <= v@.len(),
            forall|k: int| hi <= k < v@.len() ==> space_chars().contains(v@[k]),
        decreases hi,
    {
        hi -= 1;
    }
    proof {
        lemma_trim_start_any(v@, space_chars(), lo as int);
        let t = v@.subrange(lo as int, v@.len() as int);
        assert forall|k: int| hi - lo <= k < t.len() implies space_chars().contains(t[k]) by {
            assert(t[k] == v@[lo + k]);
        }
        lemma_trim_end_any(t, space_chars(), hi - lo);
        assert(t.subrange(0, hi - lo) =~= v@.subrange(lo as int, hi as int));
    }
    subvec(v, lo, hi)
}

// ===== splitting on commas =====

/// Split a character sequence at every comma; `n` commas yield `n + 1` parts.
pub open spec fn split_commas(s: Seq<char>) -> Seq<Seq<char>>
    decreases s.len(),
{
    if s.len() == 0 {
        seq![Seq::<char>::empty()]
    } else if s[0] == ',' {
        seq![Seq::<char>::empty()] + split_commas(s.drop_first())
    } else {
        let rest = split_commas(s.drop_first());
        seq![seq![s[0]] + rest[0]] + rest.drop_first()
    }
}

pub proof fn lemma_split_commas_len(s: Seq<char>)
    ensures
        split_commas(s).len() >= 1,
    decreases s.len(),
{
    if s.len() == 0 {
    } else if s[0] == ',' {
        lemma_split_commas_len(s.drop_first());
    } else {
        lemma_split_commas_len(s.drop_first());
    }
}

pub proof fn lemma_split_commas_nocomma(s: Seq<char>)
    requires
        forall|k: int| 0 <= k < s.len() ==> s[k] != ',',
    ensures
        split_commas(s) == seq![s],
    decreases s.len(),
{
    if s.len() == 0 {
        assert(s =~= Seq::<char>::empty());
    } else {
        lemma_split_commas_nocomma(s.drop_first());
        let rest = split_commas(s.drop_first());
        assert(rest[0] == s.drop_first());
        assert(seq![s[0]] + s.drop_first() =~= s);
        assert(rest.drop_first() =~= Seq::<Seq<char>>::empty());
        assert(split_commas(s) =~= seq![s]);
    }
}

pub proof fn lemma_split_commas_prepend(p: Seq<char>, s: Seq<char>)
    requires
        forall|k: int| 0 <= k < p.len() ==> p[k] != ',',
    ensures
        split_commas(p + s) == seq![p + split_commas(s)[0]] + split_commas(s).drop_first(),
    decreases p.len(),
{
    lemma_split_commas_len(s);
    if p.len() == 0 {
        assert(p + s =~= s);
        assert(p + split_commas(s)[0] =~= split_commas(s)[0]);
        assert(seq![split_commas(s)[0]] + split_commas(s).drop_first() =~= split_commas(s));
    } else {
        let ps = p + s;
        assert(ps.len() > 0 && ps[0] == p[0] && p[0] != ',');
        assert(ps.drop_first() =~= p.drop_first() + s);
        lemma_split_commas_prepend(p.drop_first(), s);
        let rest = split_commas(ps.drop_first());
        assert(rest == seq![p.drop_first() + split_commas(s)[0]] + split_commas(s).drop_first());
        assert(rest[0] == p.drop_first() + split_commas(s)[0]);
        assert(seq![ps[0]] + rest[0] =~= p + split_commas(s)[0]);
        assert(rest.drop_first() =~= split_commas(s).drop_first());
        assert(split_commas(ps) =~= seq![p + split_commas(s)[0]] + split_commas(s).drop_first());
    }
}

pub proof fn lemma_split_commas_step(s: Seq<char>, j: int)
    requires
        0 <= j < s.len(),
        s[j] == ',',
        forall|k: int| 0 <= k < j ==> s[k] != ',',
    ensures
        split_commas(s) == seq![s.subrange(0, j)] + split_commas(s.subrange(j + 1, s.len() as int)),
{
    let p = s.subrange(0, j);
    let rest = s.subrange(j + 1, s.len() as int);
    let s1 = seq![','] + rest;
    assert(s =~= p + s1);
    lemma_split_commas_prepend(p, s1);
    lemma_split_commas_len(rest);
    assert(s1[0] == ',');
    assert(s1.drop_first() =~= rest);
    assert(split_commas(s1) == seq![Seq::<char>::empty()] + split_commas(rest));
    assert(split_commas(s1)[0] == Seq::<char>::empty());
    assert(split_commas(s1).drop_first() =~= split_commas(rest));
    assert(p + Seq::<char>::empty() =~= p);
    assert(split_commas(s) =~= seq![p] + split_commas(rest));
}

/// The views of a sequence of character vectors.
pub open spec fn views_of(ts: Seq<Vec<char>>) -> Seq<Seq<char>> {
    Seq::new(ts.len(), |i: int| ts[i]@)
}

/// Split `v[from..]` at every comma.
pub fn split_commas_exec(v: &Vec<char>, from: usize) -> (r: Vec<Vec<char>>)
    requires
        from <= v@.len(),
    ensures
        views_of(r@) == split_commas(v@.subrange(from as int, v@.len() as int)),
    decreases v@.len() - from,
{
    let ghost s = v@.subrange(from as int, v@.len() as int);
    let mut j: usize = from;
    while j < v.len() && v[j] != ','
        invariant
            from <= j <= v@.len(),
            forall|k: int| from <= k < j ==> v@[k] != ',',
        decreases v@.len() - j,
    {
        j += 1;
    }
    let token = subvec(v, from, j);
    if j == v.len() {
        proof {
            assert forall|k: int| 0 <= k < s.len() implies s[k] != ',' by {
                assert(s[k] == v@[from + k]);
            }
            lemma_split_commas_nocomma(s);
        }
        let mut r: Vec<Vec<char>> = Vec::new();
        r.push(token);
        assert(views_of(r@) =~= seq![s]);
        r
    } else {
        let mut rest = split_commas_exec(v, j + 1);
        proof {
            assert forall|k: int| 0 <= k < j - from implies s[k] != ',' by {
                assert(s[k] == v@[from + k]);
            }
            assert(s[j - from] == ',');
            lemma_split_commas_step(s, j - from);
            assert(s.subrange(0, j - from) =~= v@.subrange(from as int, j as int));
            assert(s.subrange(j - from + 1, s.len() as int) =~= v@.subrange(
                j + 1,
                v@.len() as int,
            ));
        }
        rest.insert(0, token);
        assert(views_of(rest@) =~= seq![token@] + split_commas(
            v@.subrange(j + 1, v@.len() as int),
        ));
        rest
    }
}

} // verus!
