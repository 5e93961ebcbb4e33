//! Tab bookkeeping for the embedded browser surface: an ordered list of tabs
//! with at most one marked active.

use vstd::prelude::*;
use vstd::string::StringExecFns;

use crate::platform::fresh_uuid;
use crate::text::str_eq;

verus! {

/// One browser tab.
#[derive(Debug, Clone, PartialEq)]
pub struct BrowserTab {
    pub id: String,
    pub url: String,
    pub title: String,
    pub is_active: bool,
}

/// Ordered collection of tabs plus the id of the active one.
#[derive(Debug, Clone, PartialEq)]
pub struct TabManager {
    pub tabs: Vec<BrowserTab>,
    pub active_tab_id: Option<String>,
}

/// The tab at index `i` was closed: the tab list lost that entry, and when the
/// closed tab was active and tabs remain, the (new) last tab became active.
pub open spec fn closes_tab(pre: TabManager, post: TabManager, i: int) -> bool {
    let mid = pre.tabs@.remove(i);
    if pre.tabs@[i].is_active && mid.len() > 0 {
        &&& post.tabs@.len() == mid.len()
        &&& (forall|k: int| 0 <= k < mid.len() - 1 ==> post.tabs@[k] == mid[k])
        &&& post.tabs@.last().id == mid.last().id
        &&& post.tabs@.last().url == mid.last().url
        &&& post.tabs@.last().title == mid.last().title
        &&& post.tabs@.last().is_active == true
        &&& post.active_tab_id == Some(mid.last().id)
    } else {
        &&& post.tabs@ == mid
        &&& post.active_tab_id == pre.active_tab_id
    }
}

/// `i` is the first index whose tab carries the given id.
pub open spec fn first_tab_with_id(tabs: Seq<BrowserTab>, id: Seq<char>, i: int) -> bool {
    &&& 0 <= i < tabs.len()
    &&& tabs[i].id@ == id
    &&& (forall|k: int| 0 <= k < i ==> tabs[k].id@ != id)
}

/// Exactly the tabs with the given id were marked active; everything else
/// about each tab is unchanged.
pub open spec fn marks_active(pre: Seq<BrowserTab>, post: Seq<BrowserTab>, id: Seq<char>) -> bool {
    &&& post.len() == pre.len()
    &&& (forall|k: int|
        #![auto]
        0 <= k < pre.len() ==> post[k].id == pre[k].id && post[k].url == pre[k].url && post[k].title
            == pre[k].title && post[k].is_active == (pre[k].id@ == id))
}

/// `i` is the last index whose tab carries the given id.
pub open spec fn last_tab_with_id(tabs: Seq<BrowserTab>, id: Seq<char>, i: int) -> bool {
    &&& 0 <= i < tabs.len()
    &&& tabs[i].id@ == id
    &&& (forall|l: int| i < l < tabs.len() ==> tabs[l].id@ != id)
}

/// Only the URL of the tab at index `i` changed, to `url`.
pub open spec fn reroutes_tab(pre: TabManager, post: TabManager, i: int, url: Seq<char>) -> bool {
    &&& post.tabs@.len() == pre.tabs@.len()
    &&& (forall|k: int| 0 <= k < pre.tabs@.len() && k != i ==> post.tabs@[k] == pre.tabs@[k])
    &&& post.tabs@[i].id == pre.tabs@[i].id
    &&& post.tabs@[i].url@ == url
    &&& post.tabs@[i].title == pre.tabs@[i].title
    &&& post.tabs@[i].is_active == pre.tabs@[i].is_active
    &&& post.active_tab_id == pre.active_tab_id
}

/// The index of the first tab with the given id.
fn find_tab_index(tabs: &Vec<BrowserTab>, tab_id: &str) -> (r: Option<usize>)
    ensures
        r is None ==> forall|k: int| 0 <= k < tabs@.len() ==> tabs@[k].id@ != tab_id@,
        r is Some ==> 0 <= r.unwrap() < tabs@.len() && tabs@[r.unwrap() as int].id@ == tab_id@ && (
        forall|k: int| 0 <= k < r.unwrap() ==> tabs@[k].id@ != tab_id@),
{
    let mut i: usize = 0;
    while i < tabs.len()
        invariant
            i <= tabs@.len(),
            forall|k: int| 0 <= k < i ==> tabs@[k].id@ != tab_id@,
        decreases tabs@.len() - i,
    {
        if str_eq(tabs[i].id.as_str(), tab_id) {
            return Some(i);
        }
        i += 1;
    }
    None
}

impl TabManager {
    /// An empty manager: no tabs, no active tab.
    pub fn new() -> (r: Self)
        ensures
            r.tabs@.len() == 0,
            r.active_tab_id is None,
    {
        TabManager { tabs: Vec::new(), active_tab_id: None }
    }

    /// Open a new tab with a fresh id; it is appended and becomes active.
    pub fn create_tab(&mut self, url: String) -> (r: BrowserTab)
        ensures
            r.id@.len() == 36,
            r.url == url,
            r.title@ == "New Tab"@,
            r.is_active == true,
            final(self).tabs@ == old(self).tabs@.push(r),
            final(self).active_tab_id == Some(r.id),
    {
        let id = fresh_uuid();
        let tab = BrowserTab { id, url, title: String::from_str("New Tab"), is_active: true };
        let ret = BrowserTab {
            id: tab.id.clone(),
            url: tab.url.clone(),
            title: tab.title.clone(),
            is_active: true,
        };
        self.active_tab_id = Some(tab.id.clone());
        assert(tab == ret);
        self.tabs.push(tab);
        ret
    }

    /// Close the first tab with the given id, returning it; when the closed
    /// tab was active, the last remaining tab becomes active.
    pub fn close_tab(&mut self, tab_id: &str) -> (r: Option<BrowserTab>)
        ensures
            r is None ==> (forall|k: int|
                0 <= k < old(self).tabs@.len() ==> old(self).tabs@[k].id@ != tab_id@) && *final(self) == *old(self),
            r is Some ==> exists|i: int|
                #![auto]
                first_tab_with_id(old(self).tabs@, tab_id@, i) && r.unwrap() == old(self).tabs@[i]
                    && closes_tab(*old(self), *final(self), i),
    {
        match find_tab_index(&self.tabs, tab_id) {
            None => None,
            Some(pos) => {
                let tab = self.tabs.remove(pos);
                if tab.is_active && self.tabs.len() > 0 {
                    let popped = self.tabs.pop();
                    match popped {
                        Some(mut lastt) => {
                            lastt.is_active = true;
                            self.active_tab_id = Some(lastt.id.clone());
                            self.tabs.push(lastt);
                        },
                        None => {},
                    }
                }
                Some(tab)
            },
        }
    }

    /// Mark exactly the tabs with the given id active; the last match (if
    /// any) becomes the active tab id. Returns whether any tab matched.
    pub fn set_active_tab(&mut self, tab_id: &str) -> (r: bool)
        ensures
            marks_active(old(self).tabs@, final(self).tabs@, tab_id@),
            r == exists|k: int|
                0 <= k < old(self).tabs@.len() && old(self).tabs@[k].id@ == tab_id@,
            r ==> exists|k: int|
                #![auto]
                last_tab_with_id(old(self).tabs@, tab_id@, k) && final(self).active_tab_id == Some(
                    old(self).tabs@[k].id,
                ),
            !r ==> final(self).active_tab_id == old(self).active_tab_id,
    {
        let mut new_tabs: Vec<BrowserTab> = Vec::new();
        let mut any = false;
        let mut i: usize = 0;
        while i < self.tabs.len()
            invariant
                i <= self.tabs@.len(),
                self.tabs@ == old(self).tabs@,
                new_tabs@.len() == i,
                forall|k: int|
                    #![auto]
                    0 <= k < i ==> new_tabs@[k].id == self.tabs@[k].id && new_tabs@[k].url
                        == self.tabs@[k].url && new_tabs@[k].title == self.tabs@[k].title
                        && new_tabs@[k].is_active == (self.tabs@[k].id@ == tab_id@),
                any == exists|k: int| 0 <= k < i && self.tabs@[k].id@ == tab_id@,
                any ==> exists|k: int|
                    #![auto]
                    0 <= k < i && self.tabs@[k].id@ == tab_id@ && (forall|l: int|
                        k < l < i ==> self.tabs@[l].id@ != tab_id@) && self.active_tab_id == Some(
                        self.tabs@[k].id,
                    ),
                !any ==> self.active_tab_id == old(self).active_tab_id,
            decreases self.tabs@.len() - i,
        {
            let m = str_eq(self.tabs[i].id.as_str(), tab_id);
            new_tabs.push(
                BrowserTab {
                    id: self.tabs[i].id.clone(),
                    url: self.tabs[i].url.clone(),
                    title: self.tabs[i].title.clone(),
                    is_active: m,
                },
            );
            if m {
                any = true;
                self.active_tab_id = Some(self.tabs[i].id.clone());
            }
            proof {
                if m {
                    assert(self.tabs@[i as int].id@ == tab_id@);
                } else {
                    assert forall|k: int|
                        0 <= k < i + 1 && self.tabs@[k].id@ == tab_id@ implies 0 <= k < i by {}
                }
            }
            i += 1;
        }
        proof {
            if any {
                let k = choose|k: int|
                    #![auto]
                    0 <= k < i && self.tabs@[k].id@ == tab_id@ && (forall|l: int|
                        k < l < i ==> self.tabs@[l].id@ != tab_id@) && self.active_tab_id == Some(
                        self.tabs@[k].id,
                    );
                assert(last_tab_with_id(old(self).tabs@, tab_id@, k));
                assert(self.active_tab_id == Some(old(self).tabs@[k].id));
            }
        }
        self.tabs = new_tabs;
        any
    }

    /// Point the first tab with the given id at a new URL; other fields and
    /// other tabs are untouched.
    pub fn set_tab_url(&mut self, tab_id: &str, url: String) -> (r: bool)
        ensures
            !r ==> (forall|k: int|
                0 <= k < old(self).tabs@.len() ==> old(self).tabs@[k].id@ != tab_id@) && *final(self) == *old(self),
            r ==> exists|i: int|
                #![auto]
                first_tab_with_id(old(self).tabs@, tab_id@, i) && reroutes_tab(
                    *old(self),
                    *final(self),
                    i,
                    url@,
                ),
    {
        let ghost u = url@;
        match find_tab_index(&self.tabs, tab_id) {
            None => false,
            Some(pos) => {
                let ghost pre = self.tabs@;
                let mut t = self.tabs.remove(pos);
                t.url = url;
                let ghost tt = t;
                self.tabs.insert(pos, t);
                proof {
                    assert(tt.url@ == u);
                    assert(self.tabs@ =~= pre.update(pos as int, tt));
                    assert(first_tab_with_id(old(self).tabs@, tab_id@, pos as int));
                    assert(reroutes_tab(*old(self), *self, pos as int, u));
                }
                true
            },
        }
    }

    /// How many tabs are open.
    pub fn tab_count(&self) -> (r: usize)
        ensures
            r == self.tabs@.len(),
    {
        self.tabs.len()
    }
}

impl Default for TabManager {
    /// Same as `TabManager::new`.
    fn default() -> (r: Self)
        ensures
            r.tabs@.len() == 0,
            r.active_tab_id is None,
    {
        TabManager::new()
    }
}

} // verus!
