//! File-operation data model and the permission rules that gate them. The
//! permission set is an exact-path store; a path is also permitted through
//! its parent directory or by living under the platform download directory.

use vstd::prelude::*;
use vstd::string::StringExecFns;

use crate::platform::{download_dir_path, parent_dir};
use crate::text::{chars_has_prefix, has_prefix, str_chars, str_eq};

verus! {

/// Operations allowed on one path.
#[derive(Debug, Clone, PartialEq)]
pub struct FilePermission {
    pub path: String,
    pub allowed_operations: Vec<String>,
}

/// A requested file operation.
#[derive(Debug, Clone, PartialEq)]
pub enum FileOperation {
    Move { source: String, destination: String },
    Copy { source: String, destination: String },
    Delete { path: String },
    Organize { source_dir: String, rule: String },
}

/// How files are grouped when a directory is organized.
#[derive(Debug, Clone, PartialEq)]
pub struct OrganizeRule {
    pub rule_type: String,
    pub target_directory: String,
    pub options: Option<OrganizeOptions>,
}

#[derive(Debug, Clone, PartialEq)]
pub struct OrganizeOptions {
    pub recursive: bool,
    pub extensions: Option<Vec<String>>,
}

/// Outcome of a file operation.
#[derive(Debug, Clone, PartialEq)]
pub struct OperationResult {
    pub success: bool,
    pub message: String,
    pub files_processed: u32,
}

/// The set of paths the user has granted access to.
pub struct PermissionManager {
    permissions: Vec<String>,
}

impl PermissionManager {
    /// Membership: `q` was granted.
    pub closed spec fn has(self, q: Seq<char>) -> bool {
        exists|i: int| 0 <= i < self.permissions@.len() && self.permissions@[i]@ == q
    }

    /// Well-formed: no path is stored twice.
    pub closed spec fn wf(self) -> bool {
        forall|i: int, j: int|
            0 <= i < j < self.permissions@.len() ==> self.permissions@[i]@
                != self.permissions@[j]@
    }

    /// An empty permission store.
    pub fn new() -> (r: Self)
        ensures
            r.wf(),
            forall|q: Seq<char>| !r.has(q),
    {
        PermissionManager { permissions: Vec::new() }
    }

    /// Whether exactly this path was granted.
    fn contains_exact(&self, path: &str) -> (r: bool)
        ensures
            r == self.has(path@),
    {
        let mut i: usize = 0;
        while i < self.permissions.len()
            invariant
                i <= self.permissions@.len(),
                forall|k: int| 0 <= k < i ==> self.permissions@[k]@ != path@,
            decreases self.permissions@.len() - i,
        {
            if str_eq(self.permissions[i].as_str(), path) {
                return true;
            }
            i += 1;
        }
        false
    }

    /// Grant access to a path; the store afterwards holds exactly the old
    /// paths plus this one.
    pub fn grant_permission(&mut self, path: &str)
        requires
            old(self).wf(),
        ensures
            final(self).wf(),
            forall|q: Seq<char>| final(self).has(q) == (old(self).has(q) || q == path@),
    {
        if !self.contains_exact(path) {
            let ghost pre = self.permissions@;
            self.permissions.push(path.to_owned());
            proof {
                assert forall|q: Seq<char>| #[trigger]
                    self.has(q) == (old(self).has(q) || q == path@) by {
                    if old(self).has(q) {
                        let i = choose|i: int| 0 <= i < pre.len() && pre[i]@ == q;
                        assert(self.permissions@[i]@ == q);
                    }
                    if q == path@ {
                        assert(self.permissions@[pre.len() as int]@ == q);
                    }
                    if self.has(q) {
                        let i = choose|i: int|
                            0 <= i < self.permissions@.len() && self.permissions@[i]@ == q;
                        if i < pre.len() {
                            assert(pre[i]@ == q);
                        }
                    }
                }
                assert forall|i: int, j: int|
                    0 <= i < j < self.permissions@.len() implies self.permissions@[i]@
                    != self.permissions@[j]@ by {
                    if j < pre.len() {
                    } else {
                        assert(self.permissions@[j]@ == path@);
                        assert(pre[i]@ != path@);
                    }
                }
            }
        } else {
            assert forall|q: Seq<char>| #[trigger]
                self.has(q) == (old(self).has(q) || q == path@) by {}
        }
    }

    /// Revoke access to a path; the store afterwards holds exactly the old
    /// paths except this one.
    pub fn revoke_permission(&mut self, path: &str)
        requires
            old(self).wf(),
        ensures
            final(self).wf(),
            forall|q: Seq<char>| final(self).has(q) == (old(self).has(q) && q != path@),
    {
        let n = self.permissions.len();
        let mut i: usize = 0;
        while i < n
            invariant
                n == self.permissions@.len(),
                i <= n,
                *self == *old(self),
                old(self).wf(),
                forall|k: int| 0 <= k < i ==> self.permissions@[k]@ != path@,
            decreases n - i,
        {
            if str_eq(self.permissions[i].as_str(), path) {
                let ghost pre = self.permissions@;
                self.permissions.remove(i);
                proof {
                    let post = self.permissions@;
                    assert forall|k: int| 0 <= k < post.len() implies post[k] == (if k < i {
                        pre[k]
                    } else {
                        pre[k + 1]
                    }) by {}
                    assert forall|a: int, b: int| 0 <= a < b < post.len() implies post[a]@
                        != post[b]@ by {
                        let a2: int = if a < i { a } else { a + 1 };
                        let b2: int = if b < i { b } else { b + 1 };
                        assert(post[a] == pre[a2] && post[b] == pre[b2]);
                    }
                    assert forall|q: Seq<char>| #[trigger]
                        self.has(q) == (old(self).has(q) && q != path@) by {
                        if self.has(q) {
                            let k = choose|k: int| 0 <= k < post.len() && post[k]@ == q;
                            let k2: int = if k < i { k } else { k + 1 };
                            assert(pre[k2]@ == q);
                            assert(k2 != i);
                            assert(q != path@);
                        }
                        if old(self).has(q) && q != path@ {
                            let k = choose|k: int| 0 <= k < pre.len() && pre[k]@ == q;
                            assert(k != i);
                            let k2: int = if k < i {
                                k
                            } else {
                                k - 1
                            };
                            assert(post[k2]@ == q);
                        }
                    }
                }
                return ;
            }
            i += 1;
        }
        assert forall|q: Seq<char>| #[trigger]
            self.has(q) == (old(self).has(q) && q != path@) by {
            if self.has(q) && q == path@ {
                let k = choose|k: int|
                    0 <= k < self.permissions@.len() && self.permissions@[k]@ == q;
            }
        }
    }

    /// Exact semantics of the permission test, over the already-resolved
    /// parent directory and download directory.
    pub fn check_permission_against(
        &self,
        path: &str,
        parent: Option<&String>,
        downloads: Option<&String>,
    ) -> (r: bool)
        ensures
            r == (self.has(path@) || (parent is Some && self.has(parent.unwrap()@)) || (downloads
                is Some && has_prefix(path@, downloads.unwrap()@))),
    {
        if self.contains_exact(path) {
            return true;
        }
        match parent {
            Some(p) => {
                if self.contains_exact(p.as_str()) {
                    return true;
                }
            },
            None => {},
        }
        match downloads {
            Some(d) => {
                let pc = str_chars(path);
                let dc = str_chars(d.as_str());
                if chars_has_prefix(&pc, &dc) {
                    return true;
                }
            },
            None => {},
        }
        false
    }

    /// Whether an operation on this path is allowed: granted exactly, granted
    /// on the parent directory, or under the platform download directory.
    /// The operation name itself does not restrict anything today.
    pub fn check_permission(&self, path: &str, _operation: &str) -> (r: bool)
        ensures
            self.has(path@) ==> r,
    {
        let parent = parent_dir(path);
        let downloads = download_dir_path();
        self.check_permission_against(path, parent.as_ref(), downloads.as_ref())
    }
}

impl Default for PermissionManager {
    /// Same as `PermissionManager::new`.
    fn default() -> (r: Self)
        ensures
            r.wf(),
            forall|q: Seq<char>| !r.has(q),
    {
        PermissionManager::new()
    }
}

/// Pick the subdirectory a file moves to under an organize rule: its
/// modification date under `by_date`, its extension under `by_type` (a file
/// without extension is skipped), and an error for an unknown rule.
pub fn organize_target_name(rule: &str, modified_date: &str, extension: Option<&String>) -> (r:
    Result<Option<String>, String>)
    ensures
        rule@ == "by_date"@ ==> r is Ok && r->Ok_0 is Some && r->Ok_0.unwrap()@ == modified_date@,
        rule@ == "by_type"@ && extension is Some ==> r is Ok && r->Ok_0 is Some
            && r->Ok_0.unwrap()@ == extension.unwrap()@,
        rule@ == "by_type"@ && extension is None ==> r is Ok && r->Ok_0 is None,
        rule@ != "by_date"@ && rule@ != "by_type"@ ==> r is Err && r->Err_0@
            == "Unknown organization rule: "@ + rule@,
{
    proof {
        reveal_strlit("by_date");
        reveal_strlit("by_type");
        assert("by_date"@[3] != "by_type"@[3]);
    }
    if str_eq(rule, "by_date") {
        Ok(Some(modified_date.to_owned()))
    } else if str_eq(rule, "by_type") {
        match extension {
            Some(e) => Ok(Some(e.clone())),
            None => Ok(None),
        }
    } else {
        Err(String::from_str("Unknown organization rule: ").concat(rule))
    }
}

} // verus!
