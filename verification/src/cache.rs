//! View modes and the per-mode cache of previously fetched repository
//! lists. An entry is written exactly when a fetch for its mode completes
//! and removed exactly when a refresh for its mode is requested.

use crate::models::{Repository, RepositoryView};
use vstd::prelude::*;

verus! {

/// The current scoping of "which repositories": the personal account or
/// one organization.
#[derive(Debug)]
pub enum RepositoryViewMode {
    /// The user's personal repositories
    Personal,
    /// Repositories of the named organization
    Organization(String),
}

impl Clone for RepositoryViewMode {
    /// Cloning a mode keeps it equal to the original.
    fn clone(&self) -> (res: Self)
        ensures
            res == *self,
    {
        match self {
            RepositoryViewMode::Personal => RepositoryViewMode::Personal,
            RepositoryViewMode::Organization(name) => RepositoryViewMode::Organization(name.clone()),
        }
    }
}

impl RepositoryViewMode {
    /// Cache identity of the mode: the personal account, or an
    /// organization by name.
    pub open spec fn key(&self) -> Option<Seq<char>> {
        match self {
            RepositoryViewMode::Personal => Option::None,
            RepositoryViewMode::Organization(name) => Option::Some(name@),
        }
    }

    /// The characters of `display_name`.
    pub open spec fn display_name_spec(&self) -> Seq<char> {
        match self {
            RepositoryViewMode::Personal => "Personal"@,
            RepositoryViewMode::Organization(name) => "Org: "@ + name@,
        }
    }

    /// Human-readable name of the mode.
    pub fn display_name(&self) -> (r: String)
        ensures
            r@ == self.display_name_spec(),
    {
        match self {
            RepositoryViewMode::Personal => String::from_str("Personal"),
            RepositoryViewMode::Organization(name) => {
                let mut r = String::from_str("Org: ");
                r.append(name.as_str());
                r
            },
        }
    }
}

/// The organization name stored at position `i`.
pub open spec fn key_at(s: Seq<(String, Vec<Repository>)>, i: int) -> Seq<char> {
    s[i].0@
}

/// Whether some entry of `s` is keyed by the organization name `k`.
pub open spec fn has_org(s: Seq<(String, Vec<Repository>)>, k: Seq<char>) -> bool {
    exists|i: int| 0 <= i < s.len() && #[trigger] key_at(s, i) == k
}

/// The position of the entry keyed by `k`.
pub open spec fn org_index(s: Seq<(String, Vec<Repository>)>, k: Seq<char>) -> int {
    choose|i: int| 0 <= i < s.len() && #[trigger] key_at(s, i) == k
}

/// No two entries of `s` share an organization name.
pub open spec fn orgs_unique(s: Seq<(String, Vec<Repository>)>) -> bool {
    forall|i: int, j: int| 0 <= i < j < s.len() ==> #[trigger] key_at(s, i) != #[trigger] key_at(s, j)
}

/// With unique keys, any position holding `k` is the position `org_index`
/// picks.
proof fn lemma_org_index_unique(s: Seq<(String, Vec<Repository>)>, k: Seq<char>, i: int)
    requires
        orgs_unique(s),
        0 <= i < s.len(),
        key_at(s, i) == k,
    ensures
        has_org(s, k),
        org_index(s, k) == i,
{
    assert(has_org(s, k));
    let j = org_index(s, k);
    if i < j {
        assert(key_at(s, i) != key_at(s, j));
    } else if j < i {
        assert(key_at(s, j) != key_at(s, i));
    }
}

/// Per-mode storage of the last successfully fetched repository list.
#[derive(Debug)]
pub struct ViewModeCache {
    /// Cached personal repositories
    pub personal: Option<Vec<Repository>>,
    /// Cached organization repositories, each organization at most once
    pub organizations: Vec<(String, Vec<Repository>)>,
}

impl ViewModeCache {
    /// Validity: organization entries are keyed uniquely.
    pub open spec fn wf(&self) -> bool {
        orgs_unique(self.organizations@)
    }

    /// The cached list for a mode key, if any.
    pub open spec fn entry(&self, k: Option<Seq<char>>) -> Option<Seq<RepositoryView>> {
        match k {
            Option::None => match self.personal {
                Option::Some(v) => Option::Some(v.deep_view()),
                Option::None => Option::None,
            },
            Option::Some(name) => if has_org(self.organizations@, name) {
                Option::Some(self.organizations@[org_index(self.organizations@, name)].1.deep_view())
            } else {
                Option::None
            },
        }
    }

    /// The whole cache as a map from mode identity to cached list.
    pub open spec fn entries(&self) -> Map<Option<Seq<char>>, Seq<RepositoryView>> {
        Map::new(|k: Option<Seq<char>>| self.entry(k) is Some, |k: Option<Seq<char>>| self.entry(k)->Some_0)
    }

    /// An empty cache.
    pub fn new() -> (r: Self)
        ensures
            r.wf(),
            forall|k: Option<Seq<char>>| r.entry(k) is None,
    {
        ViewModeCache { personal: Option::None, organizations: Vec::new() }
    }

    /// The position of the entry for organization `name`, if one exists.
    fn find_org(&self, name: &String) -> (r: Option<usize>)
        requires
            self.wf(),
        ensures
            match r {
                Option::Some(i) => i < self.organizations@.len() && key_at(self.organizations@, i as int) == name@
                    && has_org(self.organizations@, name@) && org_index(self.organizations@, name@) == i,
                Option::None => !has_org(self.organizations@, name@),
            },
    {
        let n = self.organizations.len();
        let mut i: usize = 0;
        while i < n
            invariant
                self.wf(),
                n == self.organizations@.len(),
                0 <= i <= n,
                forall|j: int| 0 <= j < i ==> #[trigger] key_at(self.organizations@, j) != name@,
            decreases n - i,
        {
            if self.organizations[i].0 == *name {
                proof {
                    lemma_org_index_unique(self.organizations@, name@, i as int);
                }
                return Option::Some(i);
            }
            i = i + 1;
        }
        Option::None
    }

    /// The cached list for `mode`, if any.
    pub fn lookup(&self, mode: &RepositoryViewMode) -> (r: Option<&Vec<Repository>>)
        requires
            self.wf(),
        ensures
            match r {
                Option::Some(v) => self.entry(mode.key()) == Option::Some(v.deep_view()),
                Option::None => self.entry(mode.key()) is None,
            },
    {
        match mode {
            RepositoryViewMode::Personal => match &self.personal {
                Option::Some(v) => Option::Some(v),
                Option::None => Option::None,
            },
            RepositoryViewMode::Organization(name) => match self.find_org(name) {
                Option::Some(i) => Option::Some(&self.organizations[i].1),
                Option::None => Option::None,
            },
        }
    }

    /// Remove the entry for `mode`, if any. Every other entry keeps its
    /// value.
    pub fn remove(&mut self, mode: &RepositoryViewMode)
        requires
            old(self).wf(),
        ensures
            final(self).wf(),
            final(self).entry(mode.key()) is None,
            forall|k: Option<Seq<char>>| k != mode.key() ==> #[trigger] final(self).entry(k) == old(self).entry(k),
            final(self).entries() =~= old(self).entries().remove(mode.key()),
    {
        let ghost pre = *self;
        match mode {
            RepositoryViewMode::Personal => {
                self.personal = Option::None;
                proof {
                    assert forall|k: Option<Seq<char>>| k != mode.key() implies #[trigger] self.entry(k) == pre.entry(k) by {}
                }
            },
            RepositoryViewMode::Organization(name) => {
                match self.find_org(name) {
                    Option::Some(i) => {
                        self.organizations.remove(i);
                        proof {
                            lemma_remove_org(pre.organizations@, i as int);
                            assert(self.organizations@ =~= pre.organizations@.remove(i as int));
                            assert forall|k: Option<Seq<char>>| k != mode.key() implies #[trigger] self.entry(k) == pre.entry(k) by {
                                if k is Some {
                                    lemma_remove_org_entry(pre.organizations@, i as int, k->Some_0);
                                }
                            }
                            assert(!has_org(self.organizations@, name@)) by {
                                lemma_remove_org(pre.organizations@, i as int);
                            }
                        }
                    },
                    Option::None => {
                        proof {
                            assert forall|k: Option<Seq<char>>| k != mode.key() implies #[trigger] self.entry(k) == pre.entry(k) by {}
                        }
                    },
                }
            },
        }
    }

    /// Write the entry for `mode`, replacing any previous one. Every other
    /// entry keeps its value.
    pub fn insert(&mut self, mode: &RepositoryViewMode, repositories: Vec<Repository>)
        requires
            old(self).wf(),
        ensures
            final(self).wf(),
            final(self).entry(mode.key()) == Option::Some(repositories.deep_view()),
            forall|k: Option<Seq<char>>| k != mode.key() ==> #[trigger] final(self).entry(k) == old(self).entry(k),
            final(self).entries() =~= old(self).entries().insert(mode.key(), repositories.deep_view()),
    {
        let ghost pre = *self;
        self.remove(mode);
        let ghost mid = *self;
        match mode {
            RepositoryViewMode::Personal => {
                self.personal = Option::Some(repositories);
                proof {
                    let cur = *self;
                    assert forall|k: Option<Seq<char>>| k != mode.key() implies #[trigger] cur.entry(k) == pre.entry(k) by {
                        assert(mid.entry(k) == pre.entry(k));
                        assert(cur.entry(k) == mid.entry(k));
                    }
                }
            },
            RepositoryViewMode::Organization(name) => {
                self.organizations.push((name.clone(), repositories));
                proof {
                    let cur = *self;
                    let s = mid.organizations@;
                    let t = cur.organizations@;
                    lemma_push_org(s, t, name@);
                    assert(key_at(t, s.len() as int) == name@);
                    lemma_org_index_unique(t, name@, s.len() as int);
                    assert(cur.entry(mode.key()) == Option::Some(repositories.deep_view()));
                    assert forall|k: Option<Seq<char>>| k != mode.key() implies #[trigger] cur.entry(k) == pre.entry(k) by {
                        assert(mid.entry(k) == pre.entry(k));
                        if k is Some {
                            let kk = k->Some_0;
                            assert(kk != name@);
                            if has_org(s, kk) {
                                let i = org_index(s, kk);
                                assert(key_at(t, i) == kk);
                                lemma_org_index_unique(t, kk, i);
                            } else {
                                assert(!has_org(t, kk)) by {
                                    if has_org(t, kk) {
                                        let i = org_index(t, kk);
                                        assert(key_at(t, i) == kk);
                                        if i < s.len() {
                                            assert(key_at(s, i) == kk);
                                        }
                                    }
                                }
                            }
                        }
                    }
                }
            },
        }
    }
}

/// Removing position `i` keeps keys unique, drops exactly that key, and
/// keeps every other key's position content.
proof fn lemma_remove_org(s: Seq<(String, Vec<Repository>)>, i: int)
    requires
        orgs_unique(s),
        0 <= i < s.len(),
    ensures
        orgs_unique(s.remove(i)),
        !has_org(s.remove(i), key_at(s, i)),
{
    let t = s.remove(i);
    assert forall|a: int, b: int| 0 <= a < b < t.len() implies #[trigger] key_at(t, a) != #[trigger] key_at(t, b) by {
        let a0 = if a < i { a } else { a + 1 };
        let b0 = if b < i { b } else { b + 1 };
        assert(key_at(t, a) == key_at(s, a0));
        assert(key_at(t, b) == key_at(s, b0));
        assert(key_at(s, a0) != key_at(s, b0));
    }
    if has_org(t, key_at(s, i)) {
        let j = org_index(t, key_at(s, i));
        let j0 = if j < i { j } else { j + 1 };
        assert(key_at(t, j) == key_at(s, j0));
        if j0 < i {
            assert(key_at(s, j0) != key_at(s, i));
        } else {
            assert(key_at(s, i) != key_at(s, j0));
        }
    }
}

/// After removing position `i`, any other key is still present with the
/// same stored pair.
proof fn lemma_remove_org_entry(s: Seq<(String, Vec<Repository>)>, i: int, k: Seq<char>)
    requires
        orgs_unique(s),
        0 <= i < s.len(),
        k != key_at(s, i),
    ensures
        has_org(s.remove(i), k) == has_org(s, k),
        has_org(s, k) ==> s.remove(i)[org_index(s.remove(i), k)] == s[org_index(s, k)],
{
    let t = s.remove(i);
    lemma_remove_org(s, i);
    if has_org(s, k) {
        let j = org_index(s, k);
        assert(key_at(s, j) == k);
        assert(j != i);
        let j1 = if j < i { j } else { j - 1 };
        assert(t[j1] == s[j]);
        assert(key_at(t, j1) == k);
        lemma_org_index_unique(t, k, j1);
    } else {
        if has_org(t, k) {
            let j = org_index(t, k);
            let j0 = if j < i { j } else { j + 1 };
            assert(key_at(t, j) == key_at(s, j0));
            assert(has_org(s, k));
        }
    }
}

/// Pushing a pair with a fresh key keeps keys unique.
proof fn lemma_push_org(s: Seq<(String, Vec<Repository>)>, t: Seq<(String, Vec<Repository>)>, k: Seq<char>)
    requires
        orgs_unique(s),
        !has_org(s, k),
        t.len() == s.len() + 1,
        forall|i: int| 0 <= i < s.len() ==> t[i] == s[i],
        key_at(t, s.len() as int) == k,
    ensures
        orgs_unique(t),
{
    assert forall|a: int, b: int| 0 <= a < b < t.len() implies #[trigger] key_at(t, a) != #[trigger] key_at(t, b) by {
        if b < s.len() {
            assert(key_at(t, a) == key_at(s, a));
            assert(key_at(t, b) == key_at(s, b));
        } else {
            assert(key_at(t, a) == key_at(s, a));
            assert(key_at(t, b) == k);
            if key_at(s, a) == k {
                assert(has_org(s, k));
            }
        }
    }
}

} // verus!
