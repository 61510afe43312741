//! The branch manager's cache of branch information, keyed by number: a workspace's
//! current branch under the workspace's id, other branches under keys derived from it.
use vstd::prelude::*;
use crate::table::{
    entries_map, int_entries, int_key_position, keys_distinct, kept_entries, kept_map,
    lemma_entry_at, lemma_kept_entries, lemma_push_entry, lemma_update_entry,
};
use crate::text::{chars_of, decimal, decimal_exec, string_of};
use super::branch::BranchInfo;

verus! {

broadcast use vstd::string::group_string_axioms;

/// The model of a branch's information.
pub struct BranchInfoView {
    pub branch_name: Seq<char>,
    pub commit_hash: Option<Seq<char>>,
    pub last_updated: Seq<char>,
    pub workspace_id: i64,
    pub is_current: bool,
    pub file_count: u64,
    pub indexed_files: u64,
    pub cache_entries: u64,
}

pub open spec fn opt_chars(o: Option<String>) -> Option<Seq<char>> {
    match o {
        Some(s) => Some(s@),
        None => None,
    }
}

impl View for BranchInfo {
    type V = BranchInfoView;

    open spec fn view(&self) -> BranchInfoView {
        BranchInfoView {
            branch_name: self.branch_name@,
            commit_hash: opt_chars(self.commit_hash),
            last_updated: self.last_updated@,
            workspace_id: self.workspace_id,
            is_current: self.is_current,
            file_count: self.file_count,
            indexed_files: self.indexed_files,
            cache_entries: self.cache_entries,
        }
    }
}

fn copy_string(s: &String) -> (r: String)
    ensures
        r@ == s@,
{
    string_of(&chars_of(s.as_str()))
}

fn copy_opt(o: &Option<String>) -> (r: Option<String>)
    ensures
        opt_chars(r) == opt_chars(*o),
{
    match o {
        Some(s) => Some(copy_string(s)),
        None => None,
    }
}

impl BranchInfo {
    /// A copy of the information
    pub fn copy(&self) -> (r: Self)
        ensures
            r@ == self@,
    {
        BranchInfo {
            branch_name: copy_string(&self.branch_name),
            commit_hash: copy_opt(&self.commit_hash),
            last_updated: copy_string(&self.last_updated),
            workspace_id: self.workspace_id,
            is_current: self.is_current,
            file_count: self.file_count,
            indexed_files: self.indexed_files,
            cache_entries: self.cache_entries,
        }
    }
}

/// The information recorded for a branch at some time (seconds since the Unix epoch,
/// in decimal): the counts are not known yet.
pub open spec fn fresh_info(
    workspace_id: i64,
    branch_name: Seq<char>,
    commit_hash: Option<Seq<char>>,
    now_secs: u64,
    is_current: bool,
) -> BranchInfoView {
    BranchInfoView {
        branch_name,
        commit_hash,
        last_updated: decimal(now_secs as nat),
        workspace_id,
        is_current,
        file_count: 0,
        indexed_files: 0,
        cache_entries: 0,
    }
}

/// Branch information recorded now, with the counts not known yet
pub fn new_branch_info(
    workspace_id: i64,
    branch_name: &str,
    commit_hash: Option<String>,
    now_secs: u64,
    is_current: bool,
) -> (r: BranchInfo)
    ensures
        r@ == fresh_info(workspace_id, branch_name@, opt_chars(commit_hash), now_secs, is_current),
{
    BranchInfo {
        branch_name: string_of(&chars_of(branch_name)),
        commit_hash,
        last_updated: string_of(&decimal_exec(now_secs)),
        workspace_id,
        is_current,
        file_count: 0,
        indexed_files: 0,
        cache_entries: 0,
    }
}

/// The workspace's branches, all marked not current.
pub open spec fn unmark_current(m: Map<i64, BranchInfoView>, workspace_id: i64) -> Map<
    i64,
    BranchInfoView,
> {
    Map::new(
        |k: i64| m.dom().contains(k),
        |k: i64|
            if m[k].workspace_id == workspace_id {
                BranchInfoView { is_current: false, ..m[k] }
            } else {
                m[k]
            },
    )
}

/// The key a created branch is cached under: the workspace id times 1000 plus the
/// byte length of the branch's name.
pub open spec fn created_key(workspace_id: i64, branch_name: Seq<char>) -> int {
    workspace_id * 1000 + vstd::utf8::encode_utf8(branch_name).len()
}

/// The key of the `i`th branch of a workspace's listing.
pub open spec fn listed_key(workspace_id: i64, i: int) -> int {
    workspace_id * 1000 + i
}

/// The map with the branches of a listing put under their listed keys, in order.
pub open spec fn with_listed(
    m: Map<i64, BranchInfoView>,
    workspace_id: i64,
    infos: Seq<BranchInfoView>,
) -> Map<i64, BranchInfoView>
    decreases infos.len(),
{
    if infos.len() == 0 {
        m
    } else {
        with_listed(m, workspace_id, infos.drop_last()).insert(
            listed_key(workspace_id, infos.len() - 1) as i64,
            infos.last(),
        )
    }
}

pub open spec fn in_workspace(workspace_id: i64) -> spec_fn(BranchInfoView) -> bool {
    |b: BranchInfoView| b.workspace_id == workspace_id
}

pub open spec fn outside_workspace(workspace_id: i64) -> spec_fn(BranchInfoView) -> bool {
    |b: BranchInfoView| b.workspace_id != workspace_id
}

pub open spec fn not_branch(workspace_id: i64, name: Seq<char>) -> spec_fn(BranchInfoView) -> bool {
    |b: BranchInfoView| !(b.workspace_id == workspace_id && b.branch_name == name)
}

/// Cache of branch information by key
pub struct BranchCache {
    entries: Vec<(i64, BranchInfo)>,
}

impl View for BranchCache {
    type V = Map<i64, BranchInfoView>;

    closed spec fn view(&self) -> Map<i64, BranchInfoView> {
        entries_map(int_entries(self.entries@))
    }
}

impl BranchCache {
    #[verifier::type_invariant]
    spec fn keys_unique(self) -> bool {
        keys_distinct(int_entries(self.entries@))
    }

    /// The cached branches in the cache's own order, each under its key.
    pub closed spec fn spec_entries(&self) -> Seq<(i64, BranchInfoView)> {
        int_entries(self.entries@)
    }

    /// An empty cache
    pub fn new() -> (r: Self)
        ensures
            r@ == Map::<i64, BranchInfoView>::empty(),
    {
        let r = BranchCache { entries: Vec::new() };
        assert(r@ =~= Map::<i64, BranchInfoView>::empty());
        r
    }

    /// The number of cached branches
    pub fn len(&self) -> (r: usize)
        ensures
            r == self.spec_entries().len(),
    {
        self.entries.len()
    }

    /// A copy of the branch cached under a key
    pub fn get(&self, key: i64) -> (r: Option<BranchInfo>)
        ensures
            match r {
                Some(b) => self@.dom().contains(key) && b@ == self@[key],
                None => !self@.dom().contains(key),
            },
    {
        proof {
            use_type_invariant(self);
        }
        match int_key_position(&self.entries, key) {
            Some(i) => {
                proof {
                    lemma_entry_at(int_entries(self.entries@), i as int);
                }
                Some(self.entries[i].1.copy())
            },
            None => None,
        }
    }

    /// Puts a branch under a key, in place of what was there.
    fn put(&mut self, key: i64, info: BranchInfo)
        ensures
            final(self)@ == old(self)@.insert(key, info@),
    {
        proof {
            use_type_invariant(&*self);
        }
        let ghost s = int_entries(self.entries@);
        let ghost v = info@;
        let mut entries = Vec::new();
        std::mem::swap(&mut entries, &mut self.entries);
        match int_key_position(&entries, key) {
            Some(i) => {
                proof {
                    lemma_update_entry(s, i as int, v);
                }
                entries.set(i, (key, info));
                proof {
                    assert(int_entries(entries@) =~= s.update(i as int, (s[i as int].0, v)));
                }
            },
            None => {
                proof {
                    lemma_push_entry(s, key, v);
                }
                entries.push((key, info));
                proof {
                    assert(int_entries(entries@) =~= s.push((key, v)));
                }
            },
        }
        self.entries = entries;
    }

    /// Keeps the branches that `keep` holds of (by the branch's workspace and name).
    fn retain_branches(&mut self, keep_workspace: i64, name: Option<&str>, same: bool)
        ensures
            final(self)@ == kept_map(
                old(self)@,
                match name {
                    Some(n) => not_branch(keep_workspace, n@),
                    None => if same {
                        in_workspace(keep_workspace)
                    } else {
                        outside_workspace(keep_workspace)
                    },
                },
            ),
            final(self).spec_entries() == kept_entries(
                old(self).spec_entries(),
                match name {
                    Some(n) => not_branch(keep_workspace, n@),
                    None => if same {
                        in_workspace(keep_workspace)
                    } else {
                        outside_workspace(keep_workspace)
                    },
                },
            ),
    {
        proof {
            use_type_invariant(&*self);
        }
        let ghost keep = match name {
            Some(n) => not_branch(keep_workspace, n@),
            None => if same {
                in_workspace(keep_workspace)
            } else {
                outside_workspace(keep_workspace)
            },
        };
        let ghost s = int_entries(self.entries@);
        let name_chars: Vec<char> = match name {
            Some(n) => chars_of(n),
            None => Vec::new(),
        };
        let mut entries = Vec::new();
        std::mem::swap(&mut entries, &mut self.entries);
        let mut out: Vec<(i64, BranchInfo)> = Vec::new();
        let mut i: usize = 0;
        while i < entries.len()
            invariant
                i <= entries@.len(),
                s == int_entries(entries@),
                name_chars@ == match name {
                    Some(n) => n@,
                    None => Seq::<char>::empty(),
                },
                keep == match name {
                    Some(n) => not_branch(keep_workspace, n@),
                    None => if same {
                        in_workspace(keep_workspace)
                    } else {
                        outside_workspace(keep_workspace)
                    },
                },
                int_entries(out@) == kept_entries(s.take(i as int), keep),
            decreases entries.len() - i,
        {
            let b = &entries[i].1;
            let keeps = match name {
                Some(_) => !(b.workspace_id == keep_workspace && crate::text::chars_eq(
                    &chars_of(b.branch_name.as_str()),
                    &name_chars,
                )),
                None => if same {
                    b.workspace_id == keep_workspace
                } else {
                    b.workspace_id != keep_workspace
                },
            };
            proof {
                assert(s.take(i + 1) =~= s.take(i as int).push(s[i as int]));
                s.take(i as int).lemma_filter_push(
                    s[i as int],
                    |e: (i64, BranchInfoView)| keep(e.1),
                );
                assert(keeps == keep(s[i as int].1));
            }
            if keeps {
                let ghost before = out@;
                out.push((entries[i].0, b.copy()));
                proof {
                    assert(int_entries(out@) =~= int_entries(before).push(s[i as int]));
                }
            }
            i += 1;
        }
        proof {
            assert(s.take(entries@.len() as int) =~= s);
            lemma_kept_entries(s, keep);
        }
        self.entries = out;
    }

    /// List branches tracked for a workspace, in the cache's order
    pub fn list_workspace_branches(&self, workspace_id: i64) -> (r: Vec<BranchInfo>)
        ensures
            r@.map_values(|b: BranchInfo| b@) == kept_entries(
                self.spec_entries(),
                in_workspace(workspace_id),
            ).map_values(|e: (i64, BranchInfoView)| e.1),
    {
        let mut i: usize = 0;
        proof {
            use_type_invariant(self);
        }
        let ghost s = int_entries(self.entries@);
        let ghost keep = in_workspace(workspace_id);
        let mut out: Vec<BranchInfo> = Vec::new();
        while i < self.entries.len()
            invariant
                i <= self.entries@.len(),
                s == int_entries(self.entries@),
                keep == in_workspace(workspace_id),
                out@.map_values(|b: BranchInfo| b@) == kept_entries(s.take(i as int), keep).map_values(
                    |e: (i64, BranchInfoView)| e.1,
                ),
            decreases self.entries.len() - i,
        {
            proof {
                assert(s.take(i + 1) =~= s.take(i as int).push(s[i as int]));
                s.take(i as int).lemma_filter_push(
                    s[i as int],
                    |e: (i64, BranchInfoView)| keep(e.1),
                );
            }
            if self.entries[i].1.workspace_id == workspace_id {
                let ghost before = out@;
                out.push(self.entries[i].1.copy());
                proof {
                    assert(out@.map_values(|b: BranchInfo| b@) =~= before.map_values(
                        |b: BranchInfo| b@,
                    ).push(s[i as int].1));
                    assert(kept_entries(s.take(i + 1), keep).map_values(
                        |e: (i64, BranchInfoView)| e.1,
                    ) =~= kept_entries(s.take(i as int), keep).map_values(
                        |e: (i64, BranchInfoView)| e.1,
                    ).push(s[i as int].1));
                }
            } else {
                proof {
                    assert(kept_entries(s.take(i + 1), keep) == kept_entries(
                        s.take(i as int),
                        keep,
                    ));
                }
            }
            i += 1;
        }
        proof {
            assert(s.take(self.entries@.len() as int) =~= s);
        }
        out
    }

    /// Clear branch cache for workspace
    pub fn clear_branch_cache(&mut self, workspace_id: i64)
        ensures
            final(self)@ == kept_map(old(self)@, outside_workspace(workspace_id)),
    {
        self.retain_branches(workspace_id, None, false);
    }

    /// Drops a workspace's branches, giving how many were dropped (the branch-switch
    /// invalidation of the cache)
    pub fn invalidate_workspace(&mut self, workspace_id: i64) -> (r: usize)
        ensures
            final(self)@ == kept_map(old(self)@, outside_workspace(workspace_id)),
            r == old(self).spec_entries().len() - final(self).spec_entries().len(),
    {
        let initial_len = self.entries.len();
        self.retain_branches(workspace_id, None, false);
        assert(self.entries@.len() <= initial_len) by {
            broadcast use vstd::seq_lib::group_filter_ensures;

            assert(int_entries(self.entries@).len() == self.entries@.len());
        }
        initial_len - self.entries.len()
    }

    /// Record the workspace's current branch: the workspace's other branches are marked
    /// not current, and the branch is cached under the workspace's id
    pub fn update_branch_cache(
        &mut self,
        workspace_id: i64,
        branch_name: &str,
        commit_hash: Option<String>,
        now_secs: u64,
    )
        ensures
            final(self)@ == unmark_current(old(self)@, workspace_id).insert(
                workspace_id,
                fresh_info(workspace_id, branch_name@, opt_chars(commit_hash), now_secs, true),
            ),
    {
        proof {
            use_type_invariant(&*self);
        }
        let info = new_branch_info(workspace_id, branch_name, commit_hash, now_secs, true);
        let ghost s = int_entries(self.entries@);
        let mut entries = Vec::new();
        std::mem::swap(&mut entries, &mut self.entries);
        let mut i: usize = 0;
        while i < entries.len()
            invariant
                i <= entries@.len(),
                entries@.len() == s.len(),
                forall|j: int|
                    0 <= j < entries@.len() ==> (#[trigger] int_entries(entries@)[j]).0 == s[j].0,
                forall|j: int|
                    0 <= j < i ==> #[trigger] int_entries(entries@)[j] == (
                        s[j].0,
                        if s[j].1.workspace_id == workspace_id {
                            BranchInfoView { is_current: false, ..s[j].1 }
                        } else {
                            s[j].1
                        },
                    ),
                forall|j: int| i <= j < entries@.len() ==> #[trigger] int_entries(entries@)[j] == s[j],
            decreases entries.len() - i,
        {
            let ghost before = entries@;
            if entries[i].1.workspace_id == workspace_id {
                let (k, mut b) = entries.remove(i);
                b.is_current = false;
                entries.insert(i, (k, b));
                proof {
                    assert(entries@ =~= before.update(i as int, entries@[i as int]));
                    assert(entries@[i as int].1@ == BranchInfoView {
                        is_current: false,
                        ..before[i as int].1@
                    });
                }
            }
            proof {
                assert forall|j: int| 0 <= j < entries@.len() implies #[trigger] int_entries(
                    entries@,
                )[j] == if j == i {
                    (
                        s[j].0,
                        if s[j].1.workspace_id == workspace_id {
                            BranchInfoView { is_current: false, ..s[j].1 }
                        } else {
                            s[j].1
                        },
                    )
                } else {
                    int_entries(before)[j]
                } by {
                    if j != i {
                        assert(entries@[j] == before[j]);
                    } else {
                        assert(int_entries(before)[j] == s[j]);
                        assert(before[j].0 == s[j].0 && before[j].1@ == s[j].1);
                    }
                }
            }
            i += 1;
        }
        let ghost t = int_entries(entries@);
        proof {
            assert(keys_distinct(t)) by {
                assert forall|a: int, b: int| 0 <= a < b < t.len() implies t[a].0 != t[b].0 by {
                    assert(t[a].0 == s[a].0 && t[b].0 == s[b].0);
                }
            }
            assert(entries_map(t) =~= unmark_current(entries_map(s), workspace_id)) by {
                assert forall|k: i64| #[trigger] entries_map(t).dom().contains(k)
                    == entries_map(s).dom().contains(k) by {
                    if entries_map(t).dom().contains(k) {
                        let j = choose|j: int| 0 <= j < t.len() && t[j].0 == k;
                        assert(s[j].0 == k);
                    }
                    if entries_map(s).dom().contains(k) {
                        let j = choose|j: int| 0 <= j < s.len() && s[j].0 == k;
                        assert(t[j].0 == k);
                    }
                }
                assert forall|k: i64| #[trigger] entries_map(t).dom().contains(k) implies entries_map(t)[k]
                    == unmark_current(entries_map(s), workspace_id)[k] by {
                    let j = choose|j: int| 0 <= j < t.len() && t[j].0 == k;
                    lemma_entry_at(t, j);
                    lemma_entry_at(s, j);
                }
            }
        }
        self.entries = entries;
        self.put(workspace_id, info);
    }

    /// Update branch cache with commit information: the branch cached under the
    /// workspace's id takes the commit and the time; where there is none, the branch
    /// hint, if any, is cached there as current
    pub fn update_branch_cache_with_commit(
        &mut self,
        workspace_id: i64,
        branch_hint: &Option<String>,
        commit_hash: &str,
        now_secs: u64,
    )
        ensures
            old(self)@.dom().contains(workspace_id) ==> final(self)@ == old(self)@.insert(
                workspace_id,
                BranchInfoView {
                    commit_hash: Some(commit_hash@),
                    last_updated: decimal(now_secs as nat),
                    ..old(self)@[workspace_id]
                },
            ),
            !old(self)@.dom().contains(workspace_id) ==> final(self)@ == match branch_hint {
                Some(name) => old(self)@.insert(
                    workspace_id,
                    fresh_info(workspace_id, name@, Some(commit_hash@), now_secs, true),
                ),
                None => old(self)@,
            },
    {
        match self.get(workspace_id) {
            Some(mut info) => {
                info.commit_hash = Some(string_of(&chars_of(commit_hash)));
                info.last_updated = string_of(&decimal_exec(now_secs));
                self.put(workspace_id, info);
            },
            None => match branch_hint {
                Some(name) => {
                    let info = new_branch_info(
                        workspace_id,
                        name.as_str(),
                        Some(string_of(&chars_of(commit_hash))),
                        now_secs,
                        true,
                    );
                    self.put(workspace_id, info);
                },
                None => {},
            },
        }
    }

    /// Update branch cache for newly created branch: cached, not current, under the
    /// workspace's id times 1000 plus the byte length of its name
    pub fn update_branch_cache_for_creation(
        &mut self,
        workspace_id: i64,
        branch_name: &str,
        commit_hash: Option<String>,
        now_secs: u64,
    )
        requires
            i64::MIN <= created_key(workspace_id, branch_name@) <= i64::MAX,
            i64::MIN <= workspace_id * 1000 <= i64::MAX,
        ensures
            final(self)@ == old(self)@.insert(
                created_key(workspace_id, branch_name@) as i64,
                fresh_info(workspace_id, branch_name@, opt_chars(commit_hash), now_secs, false),
            ),
    {
        let len = branch_name.as_bytes_vec().len();
        assert(len == vstd::utf8::encode_utf8(branch_name@).len());
        let wide: i128 = (workspace_id as i128) * 1000 + (len as i128);
        assert(wide == created_key(workspace_id, branch_name@));
        let key = wide as i64;
        let info = new_branch_info(workspace_id, branch_name, commit_hash, now_secs, false);
        self.put(key, info);
    }

    /// Remove branch from cache
    pub fn remove_branch_from_cache(&mut self, workspace_id: i64, branch_name: &str)
        ensures
            final(self)@ == kept_map(old(self)@, not_branch(workspace_id, branch_name@)),
    {
        self.retain_branches(workspace_id, Some(branch_name), false);
    }

    /// Update branch cache with multiple branches: the workspace's branches are replaced
    /// by the listing, each under the workspace's id times 1000 plus its index
    pub fn update_branch_cache_bulk(&mut self, workspace_id: i64, branch_infos: &Vec<BranchInfo>)
        requires
            i64::MIN <= workspace_id * 1000 <= i64::MAX,
            i64::MIN <= workspace_id * 1000 + branch_infos@.len() <= i64::MAX,
        ensures
            final(self)@ == with_listed(
                kept_map(old(self)@, outside_workspace(workspace_id)),
                workspace_id,
                branch_infos@.map_values(|b: BranchInfo| b@),
            ),
    {
        self.retain_branches(workspace_id, None, false);
        let ghost base = self@;
        let ghost infos = branch_infos@.map_values(|b: BranchInfo| b@);
        let mut i: usize = 0;
        while i < branch_infos.len()
            invariant
                i <= branch_infos@.len(),
                infos == branch_infos@.map_values(|b: BranchInfo| b@),
                i64::MIN <= workspace_id * 1000 <= i64::MAX,
                i64::MIN <= workspace_id * 1000 + branch_infos@.len() <= i64::MAX,
                self@ == with_listed(base, workspace_id, infos.take(i as int)),
            decreases branch_infos.len() - i,
        {
            let wide: i128 = (workspace_id as i128) * 1000 + (i as i128);
            assert(wide == listed_key(workspace_id, i as int));
            let key = wide as i64;
            self.put(key, branch_infos[i].copy());
            proof {
                let p = infos.take(i + 1);
                assert(p.drop_last() =~= infos.take(i as int));
                assert(p.last() == branch_infos@[i as int]@);
                assert(p.len() - 1 == i);
                assert(with_listed(base, workspace_id, p) == with_listed(
                    base,
                    workspace_id,
                    p.drop_last(),
                ).insert(listed_key(workspace_id, i as int) as i64, p.last()));
            }
            i += 1;
        }
        proof {
            assert(infos.take(branch_infos@.len() as int) =~= infos);
        }
    }
}

/// After the current branch of a workspace is recorded, it is the workspace's only
/// branch marked current; other workspaces' branches are unchanged.
pub proof fn law_single_current_branch(
    m: Map<i64, BranchInfoView>,
    workspace_id: i64,
    branch_name: Seq<char>,
    commit_hash: Option<Seq<char>>,
    now_secs: u64,
)
    ensures
        ({
            let after = unmark_current(m, workspace_id).insert(
                workspace_id,
                fresh_info(workspace_id, branch_name, commit_hash, now_secs, true),
            );
            &&& after[workspace_id].is_current
            &&& after[workspace_id].branch_name == branch_name
            &&& forall|k: i64|
                #![trigger after[k]]
                after.dom().contains(k) && k != workspace_id && after[k].workspace_id
                    == workspace_id ==> !after[k].is_current
            &&& forall|k: i64|
                #![trigger after[k]]
                m.dom().contains(k) && k != workspace_id && m[k].workspace_id != workspace_id
                    ==> after[k] == m[k]
        }),
{
}

/// Once a workspace's branch cache is cleared, no branch of it is left, and other
/// workspaces' branches are all kept.
pub proof fn law_clear_leaves_no_branch(m: Map<i64, BranchInfoView>, workspace_id: i64)
    ensures
        forall|k: i64|
            #![trigger kept_map(m, outside_workspace(workspace_id))[k]]
            kept_map(m, outside_workspace(workspace_id)).dom().contains(k) ==> kept_map(
                m,
                outside_workspace(workspace_id),
            )[k].workspace_id != workspace_id,
        forall|k: i64|
            #![trigger m[k]]
            m.dom().contains(k) && m[k].workspace_id != workspace_id ==> kept_map(
                m,
                outside_workspace(workspace_id),
            ).dom().contains(k) && kept_map(m, outside_workspace(workspace_id))[k] == m[k],
{
}

/// Removing a branch leaves no entry of that name in that workspace and keeps all others.
pub proof fn law_remove_branch(m: Map<i64, BranchInfoView>, workspace_id: i64, name: Seq<char>)
    ensures
        forall|k: i64|
            #![trigger kept_map(m, not_branch(workspace_id, name))[k]]
            kept_map(m, not_branch(workspace_id, name)).dom().contains(k) ==> !(kept_map(
                m,
                not_branch(workspace_id, name),
            )[k].workspace_id == workspace_id && kept_map(m, not_branch(workspace_id, name))[k].branch_name
                == name),
        forall|k: i64|
            #![trigger m[k]]
            m.dom().contains(k) && !(m[k].workspace_id == workspace_id && m[k].branch_name == name)
                ==> kept_map(m, not_branch(workspace_id, name)).dom().contains(k),
{
}

} // verus!
