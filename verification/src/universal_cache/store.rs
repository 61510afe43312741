//! The cache store's own bookkeeping: entry records, the size limit on entries, and
//! the hit, miss and write counts kept per workspace and per method.
use vstd::prelude::*;
use std::time::SystemTime;
use crate::table::{
    entries_map, key_position, keys_distinct, lemma_entry_at, lemma_push_entry, lemma_remove_entry,
    lemma_update_entry, view_entries,
};
use crate::text::{chars_of, find, find_exec, is_ascii_hexdigit, string_of};
use super::{method_index, LspMethod, MethodStats};

verus! {

broadcast use vstd::string::group_string_axioms;

/// Metadata for cache entries
#[derive(Debug)]
pub struct CacheEntryMetadata {
    /// When the entry was created
    created_at: SystemTime,
    /// When the entry was last accessed
    last_accessed: SystemTime,
    /// How many times this entry was accessed
    access_count: u64,
    /// Size of the entry in bytes
    size_bytes: usize,
}

impl CacheEntryMetadata {
    pub closed spec fn spec_access_count(&self) -> u64 {
        self.access_count
    }

    pub closed spec fn spec_size_bytes(&self) -> usize {
        self.size_bytes
    }

    pub closed spec fn spec_created_at(&self) -> SystemTime {
        self.created_at
    }

    pub closed spec fn spec_last_accessed(&self) -> SystemTime {
        self.last_accessed
    }

    /// How many times the entry was accessed
    pub fn access_count(&self) -> (r: u64)
        ensures
            r == self.spec_access_count(),
    {
        self.access_count
    }

    /// Size of the entry in bytes
    pub fn size_bytes(&self) -> (r: usize)
        ensures
            r == self.spec_size_bytes(),
    {
        self.size_bytes
    }

    /// When the entry was created
    pub fn created_at(&self) -> (r: SystemTime)
        ensures
            r == self.spec_created_at(),
    {
        self.created_at.clone()
    }

    /// When the entry was last accessed
    pub fn last_accessed(&self) -> (r: SystemTime)
        ensures
            r == self.spec_last_accessed(),
    {
        self.last_accessed.clone()
    }
}

/// Cached value with metadata
#[derive(Debug)]
pub struct CacheEntry {
    /// The cached value as JSON bytes
    pub data: Vec<u8>,
    /// Entry metadata
    pub metadata: CacheEntryMetadata,
}

impl CacheEntry {
    /// A new entry for serialized data: accessed once, sized by its bytes.
    pub fn new(data: Vec<u8>) -> (r: Self)
        ensures
            r.data@ == data@,
            r.metadata.spec_access_count() == 1,
            r.metadata.spec_size_bytes() == data@.len(),
    {
        let size_bytes = data.len();
        CacheEntry {
            metadata: CacheEntryMetadata {
                created_at: SystemTime::now(),
                last_accessed: SystemTime::now(),
                access_count: 1,
                size_bytes,
            },
            data,
        }
    }

    /// Update access metadata: one more access, at the current time.
    pub fn touch(&mut self)
        requires
            old(self).metadata.spec_access_count() < u64::MAX,
        ensures
            final(self).data == old(self).data,
            final(self).metadata.spec_access_count() == old(
                self,
            ).metadata.spec_access_count() + 1,
            final(self).metadata.spec_size_bytes() == old(
                self,
            ).metadata.spec_size_bytes(),
            final(self).metadata.spec_created_at() == old(self).metadata.spec_created_at(),
    {
        self.metadata.last_accessed = SystemTime::now();
        self.metadata.access_count = self.metadata.access_count + 1;
    }
}

/// Configuration for cache store
#[derive(Debug, Clone, Copy)]
pub struct CacheStoreConfig {
    /// Whether to compress large values
    pub compress_threshold: usize,
    /// Maximum size for individual cache entries
    pub max_entry_size: usize,
}

impl Default for CacheStoreConfig {
    fn default() -> (r: Self)
        ensures
            r.compress_threshold == 1024,
            r.max_entry_size == 10 * 1024 * 1024,
    {
        Self { compress_threshold: 1024, max_entry_size: 10 * 1024 * 1024 }
    }
}

impl CacheStoreConfig {
    /// Whether serialized data of this length may be stored: larger entries are
    /// skipped.
    pub fn admits_entry(&self, data_len: usize) -> (r: bool)
        ensures
            r == (data_len <= self.max_entry_size),
    {
        data_len <= self.max_entry_size
    }
}

// ---------------------------------------------------------------------------
// Per-workspace statistics
// ---------------------------------------------------------------------------

/// Per-workspace cache statistics
#[derive(Debug)]
pub struct WorkspaceStats {
    /// Total entries in this workspace cache
    pub entries: u64,
    /// Total size in bytes
    pub size_bytes: u64,
    /// Hit count
    pub hits: u64,
    /// Miss count
    pub misses: u64,
    /// Per-method statistics, at each method's index; `None` for a method not seen yet
    pub method_stats: Vec<Option<MethodStats>>,
}

/// The model of a workspace's statistics.
pub struct WorkspaceStatsView {
    pub entries: u64,
    pub size_bytes: u64,
    pub hits: u64,
    pub misses: u64,
    pub methods: Seq<Option<MethodStats>>,
}

impl View for WorkspaceStats {
    type V = WorkspaceStatsView;

    open spec fn view(&self) -> WorkspaceStatsView {
        WorkspaceStatsView {
            entries: self.entries,
            size_bytes: self.size_bytes,
            hits: self.hits,
            misses: self.misses,
            methods: self.method_stats@,
        }
    }
}

/// Statistics of a workspace not seen yet.
pub open spec fn zero_stats() -> WorkspaceStatsView {
    WorkspaceStatsView {
        entries: 0,
        size_bytes: 0,
        hits: 0,
        misses: 0,
        methods: Seq::new(16, |i: int| None),
    }
}

pub open spec fn zero_method_stats() -> MethodStats {
    MethodStats { entries: 0, size_bytes: 0, hits: 0, misses: 0 }
}

/// A method's statistics, zero where the method was not seen.
pub open spec fn method_or_zero(o: Option<MethodStats>) -> MethodStats {
    match o {
        Some(s) => s,
        None => zero_method_stats(),
    }
}

/// A workspace's statistics in a table, zero where the workspace was not seen.
pub open spec fn stats_of(m: Map<Seq<char>, WorkspaceStatsView>, ws: Seq<char>) -> WorkspaceStatsView {
    if m.dom().contains(ws) {
        m[ws]
    } else {
        zero_stats()
    }
}

/// The statistics after a hit for a method.
pub open spec fn after_hit(w: WorkspaceStatsView, m: LspMethod) -> WorkspaceStatsView {
    let ms = method_or_zero(w.methods[method_index(m)]);
    WorkspaceStatsView {
        hits: (w.hits + 1) as u64,
        methods: w.methods.update(
            method_index(m),
            Some(MethodStats { hits: (ms.hits + 1) as u64, ..ms }),
        ),
        ..w
    }
}

/// The statistics after a miss for a method.
pub open spec fn after_miss(w: WorkspaceStatsView, m: LspMethod) -> WorkspaceStatsView {
    let ms = method_or_zero(w.methods[method_index(m)]);
    WorkspaceStatsView {
        misses: (w.misses + 1) as u64,
        methods: w.methods.update(
            method_index(m),
            Some(MethodStats { misses: (ms.misses + 1) as u64, ..ms }),
        ),
        ..w
    }
}

/// The statistics after an entry of some size was stored for a method.
pub open spec fn after_set(w: WorkspaceStatsView, m: LspMethod, size: u64) -> WorkspaceStatsView {
    let ms = method_or_zero(w.methods[method_index(m)]);
    WorkspaceStatsView {
        entries: (w.entries + 1) as u64,
        size_bytes: (w.size_bytes + size) as u64,
        methods: w.methods.update(
            method_index(m),
            Some(
                MethodStats {
                    entries: (ms.entries + 1) as u64,
                    size_bytes: (ms.size_bytes + size) as u64,
                    ..ms
                },
            ),
        ),
        ..w
    }
}

/// One more hit fits in the counters.
pub open spec fn hit_fits(w: WorkspaceStatsView, m: LspMethod) -> bool {
    w.hits < u64::MAX && method_or_zero(w.methods[method_index(m)]).hits < u64::MAX
}

/// One more miss fits in the counters.
pub open spec fn miss_fits(w: WorkspaceStatsView, m: LspMethod) -> bool {
    w.misses < u64::MAX && method_or_zero(w.methods[method_index(m)]).misses < u64::MAX
}

/// One more entry of this size fits in the counters.
pub open spec fn set_fits(w: WorkspaceStatsView, m: LspMethod, size: u64) -> bool {
    let ms = method_or_zero(w.methods[method_index(m)]);
    &&& w.entries < u64::MAX
    &&& w.size_bytes + size <= u64::MAX
    &&& ms.entries < u64::MAX
    &&& ms.size_bytes + size <= u64::MAX
}

/// A hit counts one hit and nothing else; a miss one miss; a write one entry and its
/// size. Each leaves the other counters as they were.
pub proof fn law_counters_independent(w: WorkspaceStatsView, m: LspMethod, size: u64)
    ensures
        after_hit(w, m).misses == w.misses && after_hit(w, m).entries == w.entries
            && after_hit(w, m).size_bytes == w.size_bytes,
        after_miss(w, m).hits == w.hits && after_miss(w, m).entries == w.entries
            && after_miss(w, m).size_bytes == w.size_bytes,
        after_set(w, m, size).hits == w.hits && after_set(w, m, size).misses == w.misses,
{
}

/// Hits and misses may be recorded in either order: the statistics come out the same.
pub proof fn law_hit_miss_commute(w: WorkspaceStatsView, hit: LspMethod, miss: LspMethod)
    requires
        w.methods.len() == 16,
    ensures
        after_miss(after_hit(w, hit), miss) == after_hit(after_miss(w, miss), hit),
{
    crate::universal_cache::lemma_method_index(hit);
    crate::universal_cache::lemma_method_index(miss);
    let a = after_miss(after_hit(w, hit), miss);
    let b = after_hit(after_miss(w, miss), hit);
    assert(a.methods =~= b.methods);
}

/// Workspaces are counted apart: recording a hit, a miss or a write for one workspace
/// leaves every other workspace's statistics as they were.
pub proof fn law_workspace_isolation(
    m: Map<Seq<char>, WorkspaceStatsView>,
    ws: Seq<char>,
    other: Seq<char>,
    method: LspMethod,
    size: u64,
)
    requires
        ws != other,
    ensures
        stats_of(m.insert(ws, after_hit(stats_of(m, ws), method)), other) == stats_of(m, other),
        stats_of(m.insert(ws, after_miss(stats_of(m, ws), method)), other) == stats_of(m, other),
        stats_of(m.insert(ws, after_set(stats_of(m, ws), method, size)), other) == stats_of(
            m,
            other,
        ),
{
}

/// The hit, miss and write counts of every workspace seen
pub struct StatsTable {
    workspaces: Vec<(String, WorkspaceStats)>,
}

impl View for StatsTable {
    type V = Map<Seq<char>, WorkspaceStatsView>;

    closed spec fn view(&self) -> Map<Seq<char>, WorkspaceStatsView> {
        entries_map(view_entries(self.workspaces@))
    }
}

impl StatsTable {
    #[verifier::type_invariant]
    spec fn well_formed(self) -> bool {
        &&& keys_distinct(view_entries(self.workspaces@))
        &&& forall|i: int|
            0 <= i < self.workspaces@.len() ==> #[trigger] self.workspaces@[i].1.method_stats@.len()
                == 16
    }

    /// The workspaces in the table's own order, each with its statistics.
    pub closed spec fn spec_entries(&self) -> Seq<(Seq<char>, WorkspaceStatsView)> {
        view_entries(self.workspaces@)
    }

    /// An empty table
    pub fn new() -> (r: Self)
        ensures
            r@ == Map::<Seq<char>, WorkspaceStatsView>::empty(),
    {
        let r = StatsTable { workspaces: Vec::new() };
        assert(r@ =~= Map::<Seq<char>, WorkspaceStatsView>::empty());
        r
    }

    /// Whether no workspace was seen
    pub fn is_empty(&self) -> (r: bool)
        ensures
            r == (self@ == Map::<Seq<char>, WorkspaceStatsView>::empty()),
    {
        proof {
            use_type_invariant(self);
            if self.workspaces@.len() > 0 {
                lemma_entry_at(view_entries(self.workspaces@), 0);
                assert(self@.dom().contains(self.workspaces@[0].0@));
            } else {
                assert(self@ =~= Map::<Seq<char>, WorkspaceStatsView>::empty());
            }
        }
        self.workspaces.len() == 0
    }

    /// A copy of a workspace's statistics, if it was seen
    pub fn get(&self, workspace_id: &str) -> (r: Option<WorkspaceStats>)
        ensures
            match r {
                Some(w) => self@.dom().contains(workspace_id@) && w@ == self@[workspace_id@],
                None => !self@.dom().contains(workspace_id@),
            },
    {
        proof {
            use_type_invariant(self);
        }
        match key_position(&self.workspaces, &chars_of(workspace_id)) {
            Some(i) => {
                proof {
                    lemma_entry_at(view_entries(self.workspaces@), i as int);
                }
                let w = &self.workspaces[i].1;
                Some(WorkspaceStats {
                    entries: w.entries,
                    size_bytes: w.size_bytes,
                    hits: w.hits,
                    misses: w.misses,
                    method_stats: w.method_stats.clone(),
                })
            },
            None => None,
        }
    }

    /// Takes a workspace's statistics out of the table (zero if not seen), leaving
    /// its position.
    fn take_stats(&mut self, workspace_id: &str) -> (r: (Option<usize>, WorkspaceStats))
        ensures
            r.1@ == stats_of(old(self)@, workspace_id@),
            r.1@.methods.len() == 16,
            final(self)@ == old(self)@,
            final(self).workspaces@.len() == old(self).workspaces@.len(),
            match r.0 {
                Some(i) => i < final(self).workspaces@.len() && final(self).workspaces@[i as int].0@
                    == workspace_id@,
                None => !old(self)@.dom().contains(workspace_id@),
            },
    {
        proof {
            use_type_invariant(&*self);
        }
        match key_position(&self.workspaces, &chars_of(workspace_id)) {
            Some(i) => {
                proof {
                    lemma_entry_at(view_entries(self.workspaces@), i as int);
                }
                let w = &self.workspaces[i].1;
                let copy = WorkspaceStats {
                    entries: w.entries,
                    size_bytes: w.size_bytes,
                    hits: w.hits,
                    misses: w.misses,
                    method_stats: w.method_stats.clone(),
                };
                assert(copy.method_stats@ =~= w.method_stats@);
                (Some(i), copy)
            },
            None => {
                let mut methods: Vec<Option<MethodStats>> = Vec::new();
                let mut k: usize = 0;
                while k < 16
                    invariant
                        k <= 16,
                        methods@.len() == k,
                        forall|j: int| 0 <= j < k ==> methods@[j] is None,
                    decreases 16 - k,
                {
                    methods.push(None);
                    k += 1;
                }
                let z = WorkspaceStats {
                    entries: 0,
                    size_bytes: 0,
                    hits: 0,
                    misses: 0,
                    method_stats: methods,
                };
                assert(z@.methods =~= zero_stats().methods);
                (None, z)
            },
        }
    }

    /// Puts a workspace's statistics back at the position `take_stats` gave.
    fn put_stats(&mut self, workspace_id: &str, at: Option<usize>, w: WorkspaceStats)
        requires
            w@.methods.len() == 16,
            match at {
                Some(i) => i < old(self).workspaces@.len() && old(self).workspaces@[i as int].0@
                    == workspace_id@,
                None => !old(self)@.dom().contains(workspace_id@),
            },
        ensures
            final(self)@ == old(self)@.insert(workspace_id@, w@),
    {
        proof {
            use_type_invariant(&*self);
        }
        let ghost s = view_entries(self.workspaces@);
        let ghost v = w@;
        let key = string_of(&chars_of(workspace_id));
        let mut workspaces = Vec::new();
        std::mem::swap(&mut workspaces, &mut self.workspaces);
        let ghost old_ws = workspaces@;
        match at {
            Some(i) => {
                proof {
                    lemma_update_entry(s, i as int, v);
                }
                workspaces.set(i, (key, w));
                proof {
                    assert(view_entries(workspaces@) =~= s.update(i as int, (s[i as int].0, v)));
                    assert forall|j: int| 0 <= j < workspaces@.len() implies #[trigger] workspaces@[j].1.method_stats@.len()
                        == 16 by {
                        if j != i {
                            assert(workspaces@[j] == old_ws[j]);
                        }
                    }
                }
            },
            None => {
                proof {
                    lemma_push_entry(s, workspace_id@, v);
                }
                workspaces.push((key, w));
                proof {
                    assert(view_entries(workspaces@) =~= s.push((workspace_id@, v)));
                    assert forall|j: int| 0 <= j < workspaces@.len() implies #[trigger] workspaces@[j].1.method_stats@.len()
                        == 16 by {
                        if j < old_ws.len() {
                            assert(workspaces@[j] == old_ws[j]);
                        }
                    }
                }
            },
        }
        self.workspaces = workspaces;
    }

    /// Forget a workspace's statistics (its cache was cleared)
    pub fn remove(&mut self, workspace_id: &str)
        ensures
            final(self)@ == old(self)@.remove(workspace_id@),
    {
        proof {
            use_type_invariant(&*self);
        }
        let ghost s = view_entries(self.workspaces@);
        match key_position(&self.workspaces, &chars_of(workspace_id)) {
            Some(i) => {
                proof {
                    lemma_remove_entry(s, i as int);
                }
                let mut workspaces = Vec::new();
                std::mem::swap(&mut workspaces, &mut self.workspaces);
                let ghost old_ws = workspaces@;
                workspaces.remove(i);
                proof {
                    assert(view_entries(workspaces@) =~= s.remove(i as int));
                    assert forall|j: int| 0 <= j < workspaces@.len() implies #[trigger] workspaces@[j].1.method_stats@.len()
                        == 16 by {
                        if j < i {
                            assert(workspaces@[j] == old_ws[j]);
                        } else {
                            assert(workspaces@[j] == old_ws[j + 1]);
                        }
                    }
                }
                self.workspaces = workspaces;
            },
            None => {
                assert(self@ =~= old(self)@.remove(workspace_id@));
            },
        }
    }

    /// Record a cache hit
    pub fn record_hit(&mut self, workspace_id: &str, method: LspMethod)
        requires
            hit_fits(stats_of(old(self)@, workspace_id@), method),
        ensures
            final(self)@ == old(self)@.insert(
                workspace_id@,
                after_hit(stats_of(old(self)@, workspace_id@), method),
            ),
    {
        let (at, mut w) = self.take_stats(workspace_id);
        let ghost before = w@;
        let idx = method.index();
        let ms = match w.method_stats[idx] {
            Some(s) => s,
            None => MethodStats { entries: 0, size_bytes: 0, hits: 0, misses: 0 },
        };
        w.hits = w.hits + 1;
        w.method_stats.set(idx, Some(MethodStats { hits: ms.hits + 1, ..ms }));
        assert(w@ == after_hit(before, method));
        self.put_stats(workspace_id, at, w);
    }

    /// Record a cache miss
    pub fn record_miss(&mut self, workspace_id: &str, method: LspMethod)
        requires
            miss_fits(stats_of(old(self)@, workspace_id@), method),
        ensures
            final(self)@ == old(self)@.insert(
                workspace_id@,
                after_miss(stats_of(old(self)@, workspace_id@), method),
            ),
    {
        let (at, mut w) = self.take_stats(workspace_id);
        let ghost before = w@;
        let idx = method.index();
        let ms = match w.method_stats[idx] {
            Some(s) => s,
            None => MethodStats { entries: 0, size_bytes: 0, hits: 0, misses: 0 },
        };
        w.misses = w.misses + 1;
        w.method_stats.set(idx, Some(MethodStats { misses: ms.misses + 1, ..ms }));
        assert(w@ == after_miss(before, method));
        self.put_stats(workspace_id, at, w);
    }

    /// Record a cache set operation of an entry of some size
    pub fn record_set(&mut self, workspace_id: &str, method: LspMethod, size_bytes: usize)
        requires
            set_fits(stats_of(old(self)@, workspace_id@), method, size_bytes as u64),
        ensures
            final(self)@ == old(self)@.insert(
                workspace_id@,
                after_set(stats_of(old(self)@, workspace_id@), method, size_bytes as u64),
            ),
    {
        let (at, mut w) = self.take_stats(workspace_id);
        let ghost before = w@;
        let size = size_bytes as u64;
        let idx = method.index();
        let ms = match w.method_stats[idx] {
            Some(s) => s,
            None => MethodStats { entries: 0, size_bytes: 0, hits: 0, misses: 0 },
        };
        w.entries = w.entries + 1;
        w.size_bytes = w.size_bytes + size;
        w.method_stats.set(
            idx,
            Some(MethodStats { entries: ms.entries + 1, size_bytes: ms.size_bytes + size, ..ms }),
        );
        assert(w@ == after_set(before, method, size));
        self.put_stats(workspace_id, at, w);
    }
}


// ---------------------------------------------------------------------------
// Totals over all workspaces
// ---------------------------------------------------------------------------

/// Statistics a workspace's persistent cache keeps.
#[derive(Debug, Clone, Copy)]
pub struct PersistedStats {
    pub total_nodes: u64,
    pub total_size_bytes: u64,
    pub hit_count: u64,
    pub miss_count: u64,
}

/// One active workspace, as the cache router reports it.
#[derive(Debug)]
pub struct ActiveWorkspace {
    pub workspace_id: String,
    /// Its persistent cache's statistics, where it has them
    pub cache_stats: Option<PersistedStats>,
}

pub open spec fn active_view(v: Seq<ActiveWorkspace>) -> Seq<(Seq<char>, Option<PersistedStats>)> {
    v.map_values(|a: ActiveWorkspace| (a.workspace_id@, a.cache_stats))
}

/// Totals over workspaces, in unbounded integers; per method, its hits and misses.
pub struct Totals {
    pub entries: int,
    pub size_bytes: int,
    pub hits: int,
    pub misses: int,
    pub methods: Seq<Option<(int, int)>>,
}

pub open spec fn no_totals() -> Totals {
    Totals {
        entries: 0,
        size_bytes: 0,
        hits: 0,
        misses: 0,
        methods: Seq::new(16, |i: int| None),
    }
}

pub open spec fn pair_or_zero(o: Option<(int, int)>) -> (int, int) {
    match o {
        Some(p) => p,
        None => (0, 0),
    }
}

/// Adds the hits and misses of each method a workspace has seen.
pub open spec fn add_method_counts(t: Seq<Option<(int, int)>>, ms: Seq<Option<MethodStats>>) -> Seq<
    Option<(int, int)>,
> {
    Seq::new(
        16,
        |i: int|
            match ms[i] {
                Some(s) => Some((pair_or_zero(t[i]).0 + s.hits, pair_or_zero(t[i]).1 + s.misses)),
                None => t[i],
            },
    )
}

/// Adds a persistent cache's statistics.
pub open spec fn add_persisted(t: Totals, p: PersistedStats) -> Totals {
    Totals {
        entries: t.entries + p.total_nodes,
        size_bytes: t.size_bytes + p.total_size_bytes,
        hits: t.hits + p.hit_count,
        misses: t.misses + p.miss_count,
        methods: t.methods,
    }
}

/// Adds a workspace's in-memory statistics.
pub open spec fn add_memory(t: Totals, w: WorkspaceStatsView) -> Totals {
    Totals {
        entries: t.entries + w.entries,
        size_bytes: t.size_bytes + w.size_bytes,
        hits: t.hits + w.hits,
        misses: t.misses + w.misses,
        methods: add_method_counts(t.methods, w.methods),
    }
}

/// Adds only a workspace's in-memory hits and misses.
pub open spec fn add_memory_counts(t: Totals, w: WorkspaceStatsView) -> Totals {
    Totals {
        hits: t.hits + w.hits,
        misses: t.misses + w.misses,
        methods: add_method_counts(t.methods, w.methods),
        ..t
    }
}

/// The totals over the active workspaces: each one's persistent statistics, where it
/// has them, and its in-memory statistics, where the table has them.
pub open spec fn active_totals(
    active: Seq<(Seq<char>, Option<PersistedStats>)>,
    mem: Map<Seq<char>, WorkspaceStatsView>,
) -> Totals
    decreases active.len(),
{
    if active.len() == 0 {
        no_totals()
    } else {
        let t = active_totals(active.drop_last(), mem);
        let id = active.last().0;
        let t1 = match active.last().1 {
            Some(p) => add_persisted(t, p),
            None => t,
        };
        if mem.dom().contains(id) {
            add_memory(t1, mem[id])
        } else {
            t1
        }
    }
}

/// The totals with the in-memory hits and misses of every workspace in the table added.
pub open spec fn fallback_totals(t: Totals, entries: Seq<(Seq<char>, WorkspaceStatsView)>) -> Totals
    decreases entries.len(),
{
    if entries.len() == 0 {
        t
    } else {
        add_memory_counts(fallback_totals(t, entries.drop_last()), entries.last().1)
    }
}

/// The cache's totals: those of the active workspaces; where those show neither a hit
/// nor a miss and the table is not empty, the table's hits and misses are added to them.
pub open spec fn cache_totals(
    active: Seq<(Seq<char>, Option<PersistedStats>)>,
    entries: Seq<(Seq<char>, WorkspaceStatsView)>,
) -> Totals {
    let t = active_totals(active, entries_map(entries));
    if t.hits == 0 && t.misses == 0 && entries.len() > 0 {
        fallback_totals(t, entries)
    } else {
        t
    }
}

/// Every total fits in a `u64`.
pub open spec fn totals_fit(t: Totals) -> bool {
    &&& t.entries <= u64::MAX
    &&& t.size_bytes <= u64::MAX
    &&& t.hits <= u64::MAX
    &&& t.misses <= u64::MAX
    &&& forall|i: int|
        0 <= i < 16 ==> pair_or_zero(#[trigger] t.methods[i]).0 <= u64::MAX && pair_or_zero(
            t.methods[i],
        ).1 <= u64::MAX
}

/// No total of `a` exceeds that of `b`.
pub open spec fn totals_le(a: Totals, b: Totals) -> bool {
    &&& a.entries <= b.entries
    &&& a.size_bytes <= b.size_bytes
    &&& a.hits <= b.hits
    &&& a.misses <= b.misses
    &&& forall|i: int|
        0 <= i < 16 ==> pair_or_zero(#[trigger] a.methods[i]).0 <= pair_or_zero(b.methods[i]).0
            && pair_or_zero(a.methods[i]).1 <= pair_or_zero(b.methods[i]).1
}

/// Totals are never negative.
pub open spec fn totals_nonneg(t: Totals) -> bool {
    &&& t.entries >= 0
    &&& t.size_bytes >= 0
    &&& t.hits >= 0
    &&& t.misses >= 0
    &&& forall|i: int|
        0 <= i < 16 ==> pair_or_zero(#[trigger] t.methods[i]).0 >= 0 && pair_or_zero(
            t.methods[i],
        ).1 >= 0
}

proof fn lemma_le_trans(a: Totals, b: Totals, c: Totals)
    requires
        totals_le(a, b),
        totals_le(b, c),
    ensures
        totals_le(a, c),
{
    assert forall|i: int| 0 <= i < 16 implies pair_or_zero(#[trigger] a.methods[i]).0 <= pair_or_zero(
        c.methods[i],
    ).0 && pair_or_zero(a.methods[i]).1 <= pair_or_zero(c.methods[i]).1 by {
        assert(pair_or_zero(b.methods[i]).0 <= pair_or_zero(c.methods[i]).0);
    }
}

proof fn lemma_le_fit(a: Totals, b: Totals)
    requires
        totals_le(a, b),
        totals_fit(b),
    ensures
        totals_fit(a),
{
    assert forall|i: int| 0 <= i < 16 implies pair_or_zero(#[trigger] a.methods[i]).0 <= u64::MAX
        && pair_or_zero(a.methods[i]).1 <= u64::MAX by {
        assert(pair_or_zero(b.methods[i]).0 <= u64::MAX);
    }
}

proof fn lemma_add_method_counts(t: Seq<Option<(int, int)>>, ms: Seq<Option<MethodStats>>)
    requires
        forall|i: int| 0 <= i < 16 ==> pair_or_zero(#[trigger] t[i]).0 >= 0 && pair_or_zero(t[i]).1 >= 0,
    ensures
        forall|i: int|
            0 <= i < 16 ==> pair_or_zero(#[trigger] t[i]).0 <= pair_or_zero(
                add_method_counts(t, ms)[i],
            ).0 && pair_or_zero(t[i]).1 <= pair_or_zero(add_method_counts(t, ms)[i]).1
                && pair_or_zero(add_method_counts(t, ms)[i]).0 >= 0 && pair_or_zero(
                add_method_counts(t, ms)[i],
            ).1 >= 0,
{
}

proof fn lemma_add_memory_grows(t: Totals, w: WorkspaceStatsView)
    requires
        totals_nonneg(t),
    ensures
        totals_le(t, add_memory(t, w)),
        totals_le(t, add_memory_counts(t, w)),
        totals_nonneg(add_memory(t, w)),
        totals_nonneg(add_memory_counts(t, w)),
{
    lemma_add_method_counts(t.methods, w.methods);
}

proof fn lemma_active_step(
    active: Seq<(Seq<char>, Option<PersistedStats>)>,
    mem: Map<Seq<char>, WorkspaceStatsView>,
)
    requires
        active.len() > 0,
    ensures
        totals_nonneg(active_totals(active.drop_last(), mem)) ==> totals_le(
            active_totals(active.drop_last(), mem),
            active_totals(active, mem),
        ) && totals_nonneg(active_totals(active, mem)),
{
    let t = active_totals(active.drop_last(), mem);
    if totals_nonneg(t) {
        let t1 = match active.last().1 {
            Some(p) => add_persisted(t, p),
            None => t,
        };
        assert(totals_le(t, t1));
        assert(totals_nonneg(t1));
        if mem.dom().contains(active.last().0) {
            lemma_add_memory_grows(t1, mem[active.last().0]);
            lemma_le_trans(t, t1, active_totals(active, mem));
        }
    }
}

proof fn lemma_active_nonneg(
    active: Seq<(Seq<char>, Option<PersistedStats>)>,
    mem: Map<Seq<char>, WorkspaceStatsView>,
)
    ensures
        totals_nonneg(active_totals(active, mem)),
    decreases active.len(),
{
    if active.len() > 0 {
        lemma_active_nonneg(active.drop_last(), mem);
        lemma_active_step(active, mem);
    }
}

/// The totals over a prefix of the active workspaces never exceed those over all.
proof fn lemma_active_prefix(
    active: Seq<(Seq<char>, Option<PersistedStats>)>,
    mem: Map<Seq<char>, WorkspaceStatsView>,
    k: int,
)
    requires
        0 <= k <= active.len(),
    ensures
        totals_le(active_totals(active.take(k), mem), active_totals(active, mem)),
    decreases active.len() - k,
{
    if k == active.len() {
        assert(active.take(k) =~= active);
    } else {
        lemma_active_prefix(active, mem, k + 1);
        let p = active.take(k + 1);
        assert(p.drop_last() =~= active.take(k));
        lemma_active_nonneg(p.drop_last(), mem);
        lemma_active_step(p, mem);
        lemma_le_trans(active_totals(active.take(k), mem), active_totals(p, mem), active_totals(active, mem));
    }
}

proof fn lemma_fallback_nonneg(t: Totals, entries: Seq<(Seq<char>, WorkspaceStatsView)>)
    requires
        totals_nonneg(t),
    ensures
        totals_nonneg(fallback_totals(t, entries)),
        totals_le(t, fallback_totals(t, entries)),
    decreases entries.len(),
{
    if entries.len() > 0 {
        lemma_fallback_nonneg(t, entries.drop_last());
        let f = fallback_totals(t, entries.drop_last());
        lemma_add_memory_grows(f, entries.last().1);
        lemma_le_trans(t, f, fallback_totals(t, entries));
    }
}

/// The fallback over a prefix of the table never exceeds that over all of it.
proof fn lemma_fallback_prefix(t: Totals, entries: Seq<(Seq<char>, WorkspaceStatsView)>, k: int)
    requires
        totals_nonneg(t),
        0 <= k <= entries.len(),
    ensures
        totals_le(fallback_totals(t, entries.take(k)), fallback_totals(t, entries)),
    decreases entries.len() - k,
{
    if k == entries.len() {
        assert(entries.take(k) =~= entries);
    } else {
        lemma_fallback_prefix(t, entries, k + 1);
        let p = entries.take(k + 1);
        assert(p.drop_last() =~= entries.take(k));
        lemma_fallback_nonneg(t, p.drop_last());
        lemma_add_memory_grows(fallback_totals(t, p.drop_last()), p.last().1);
        lemma_le_trans(fallback_totals(t, entries.take(k)), fallback_totals(t, p), fallback_totals(t, entries));
    }
}

/// The per-method hits and misses of an accumulator.
pub open spec fn method_pairs(v: Seq<Option<MethodStats>>) -> Seq<Option<(int, int)>> {
    Seq::new(
        v.len(),
        |i: int|
            match v[i] {
                Some(s) => Some((s.hits as int, s.misses as int)),
                None => None,
            },
    )
}

/// Every method's entry and size counts are zero.
pub open spec fn counts_only(v: Seq<Option<MethodStats>>) -> bool {
    forall|i: int|
        0 <= i < v.len() ==> (#[trigger] v[i] matches Some(s) ==> s.entries == 0 && s.size_bytes == 0)
}

/// Adds each method's hits and misses of a workspace to an accumulator.
fn add_counts(acc: &mut Vec<Option<MethodStats>>, ms: &Vec<Option<MethodStats>>)
    requires
        old(acc)@.len() == 16,
        ms@.len() == 16,
        counts_only(old(acc)@),
        forall|i: int|
            0 <= i < 16 ==> pair_or_zero(
                #[trigger] add_method_counts(method_pairs(old(acc)@), ms@)[i],
            ).0 <= u64::MAX && pair_or_zero(add_method_counts(method_pairs(old(acc)@), ms@)[i]).1
                <= u64::MAX,
    ensures
        final(acc)@.len() == 16,
        counts_only(final(acc)@),
        method_pairs(final(acc)@) == add_method_counts(method_pairs(old(acc)@), ms@),
{
    let ghost orig = acc@;
    let ghost target = add_method_counts(method_pairs(orig), ms@);
    let mut i: usize = 0;
    while i < 16
        invariant
            i <= 16,
            acc@.len() == 16,
            ms@.len() == 16,
            counts_only(acc@),
            target == add_method_counts(method_pairs(orig), ms@),
            orig.len() == 16,
            forall|j: int|
                0 <= j < 16 ==> pair_or_zero(#[trigger] target[j]).0 <= u64::MAX && pair_or_zero(
                    target[j],
                ).1 <= u64::MAX,
            forall|j: int| 0 <= j < i ==> #[trigger] method_pairs(acc@)[j] == target[j],
            forall|j: int| i <= j < 16 ==> #[trigger] acc@[j] == orig[j],
        decreases 16 - i,
    {
        let ghost before = acc@;
        match ms[i] {
            Some(s) => {
                let c = match acc[i] {
                    Some(c) => c,
                    None => MethodStats { entries: 0, size_bytes: 0, hits: 0, misses: 0 },
                };
                assert(pair_or_zero(target[i as int]).0 == c.hits + s.hits);
                assert(pair_or_zero(target[i as int]).1 == c.misses + s.misses);
                acc.set(
                    i,
                    Some(
                        MethodStats {
                            entries: 0,
                            size_bytes: 0,
                            hits: c.hits + s.hits,
                            misses: c.misses + s.misses,
                        },
                    ),
                );
            },
            None => {},
        }
        assert(method_pairs(acc@)[i as int] == target[i as int]);
        assert forall|j: int| 0 <= j < i implies #[trigger] method_pairs(acc@)[j] == target[j] by {
            assert(acc@[j] == before[j]);
            assert(method_pairs(before)[j] == target[j]);
        }
        i += 1;
    }
    assert(method_pairs(acc@) =~= target);
}

/// Cache totals over all workspaces, counts only
#[derive(Debug)]
pub struct CacheTotals {
    pub total_entries: u64,
    pub total_size_bytes: u64,
    pub total_hits: u64,
    pub total_misses: u64,
    /// Number of active workspaces
    pub active_workspaces: usize,
    /// Per method, at its index: its hits and misses over all workspaces, where any
    /// workspace has seen it (entry and size counts stay zero)
    pub method_stats: Vec<Option<MethodStats>>,
}

/// The totals match the model.
pub open spec fn totals_match(r: CacheTotals, t: Totals) -> bool {
    &&& r.total_entries == t.entries
    &&& r.total_size_bytes == t.size_bytes
    &&& r.total_hits == t.hits
    &&& r.total_misses == t.misses
    &&& r.method_stats@.len() == 16
    &&& counts_only(r.method_stats@)
    &&& method_pairs(r.method_stats@) == t.methods
}

impl StatsTable {
    /// The table's entries name each workspace once and are the table.
    pub fn entries_are_table(&self)
        ensures
            keys_distinct(self.spec_entries()),
            entries_map(self.spec_entries()) == self@,
    {
        proof {
            use_type_invariant(self);
        }
    }

    #[verifier::spinoff_prover]
    /// The cache's totals over the active workspaces and this table (the counting that
    /// the cache's statistics report makes; rates are left to the caller).
    pub fn cache_totals(&self, active: &Vec<ActiveWorkspace>) -> (r: CacheTotals)
        requires
            totals_fit(cache_totals(active_view(active@), self.spec_entries())),
        ensures
            totals_match(r, cache_totals(active_view(active@), self.spec_entries())),
            r.active_workspaces == active@.len(),
    {
        proof {
            use_type_invariant(self);
        }
        let ghost av = active_view(active@);
        let ghost entries = self.spec_entries();
        let ghost mem = entries_map(entries);
        let ghost full = cache_totals(av, entries);
        let ghost act = active_totals(av, mem);
        proof {
            lemma_active_nonneg(av, mem);
            if act.hits == 0 && act.misses == 0 && entries.len() > 0 {
                lemma_fallback_nonneg(act, entries);
            }
            lemma_le_fit(act, full);
        }
        let mut entries_total: u64 = 0;
        let mut size_total: u64 = 0;
        let mut hits: u64 = 0;
        let mut misses: u64 = 0;
        let mut methods: Vec<Option<MethodStats>> = Vec::new();
        let mut k: usize = 0;
        while k < 16
            invariant
                k <= 16,
                methods@.len() == k,
                forall|j: int| 0 <= j < k ==> methods@[j] is None,
            decreases 16 - k,
        {
            methods.push(None);
            k += 1;
        }
        proof {
            assert(method_pairs(methods@) =~= no_totals().methods);
            assert(av.take(0) =~= Seq::<(Seq<char>, Option<PersistedStats>)>::empty());
        }
        let mut i: usize = 0;
        while i < active.len()
            invariant
                i <= active@.len(),
                av == active_view(active@),
                mem == entries_map(view_entries(self.workspaces@)),
                keys_distinct(view_entries(self.workspaces@)),
                forall|j: int|
                    0 <= j < self.workspaces@.len() ==> #[trigger] self.workspaces@[j].1.method_stats@.len()
                        == 16,
                totals_fit(act),
                act == active_totals(av, mem),
                methods@.len() == 16,
                counts_only(methods@),
                ({
                    let t = active_totals(av.take(i as int), mem);
                    &&& entries_total == t.entries
                    &&& size_total == t.size_bytes
                    &&& hits == t.hits
                    &&& misses == t.misses
                    &&& method_pairs(methods@) == t.methods
                }),
            decreases active.len() - i,
        {
            let ghost prev = active_totals(av.take(i as int), mem);
            let ghost next = active_totals(av.take(i + 1), mem);
            proof {
                let p = av.take(i + 1);
                assert(p.drop_last() =~= av.take(i as int));
                assert(p.last() == av[i as int]);
                lemma_active_prefix(av, mem, i + 1);
                lemma_le_fit(next, act);
                lemma_active_nonneg(av.take(i as int), mem);
            }
            let ghost t1 = match av[i as int].1 {
                Some(p) => add_persisted(prev, p),
                None => prev,
            };
            proof {
                lemma_active_nonneg(av.take(i as int), mem);
                if mem.dom().contains(av[i as int].0) {
                    lemma_add_memory_grows(t1, mem[av[i as int].0]);
                    lemma_le_fit(t1, next);
                }
            }
            match active[i].cache_stats {
                Some(p) => {
                    entries_total = entries_total + p.total_nodes;
                    size_total = size_total + p.total_size_bytes;
                    hits = hits + p.hit_count;
                    misses = misses + p.miss_count;
                },
                None => {},
            }
            match key_position(&self.workspaces, &chars_of(active[i].workspace_id.as_str())) {
                Some(j) => {
                    proof {
                        lemma_entry_at(view_entries(self.workspaces@), j as int);
                    }
                    let w = &self.workspaces[j].1;
                    proof {
                        assert(mem[av[i as int].0] == w@);
                    }
                    entries_total = entries_total + w.entries;
                    size_total = size_total + w.size_bytes;
                    hits = hits + w.hits;
                    misses = misses + w.misses;
                    proof {
                        assert(add_method_counts(method_pairs(methods@), w.method_stats@)
                            == next.methods);
                    }
                    add_counts(&mut methods, &w.method_stats);
                },
                None => {},
            }
            i += 1;
        }
        proof {
            assert(av.take(active@.len() as int) =~= av);
        }
        if hits == 0 && misses == 0 && self.workspaces.len() > 0 {
            let mut q: usize = 0;
            proof {
                assert(entries.take(0) =~= Seq::<(Seq<char>, WorkspaceStatsView)>::empty());
            }
            while q < self.workspaces.len()
                invariant
                    q <= self.workspaces@.len(),
                    entries == view_entries(self.workspaces@),
                    forall|j: int|
                        0 <= j < self.workspaces@.len() ==> #[trigger] self.workspaces@[j].1.method_stats@.len()
                            == 16,
                    totals_nonneg(act),
                    totals_fit(full),
                    full == fallback_totals(act, entries),
                    methods@.len() == 16,
                    counts_only(methods@),
                    ({
                        let t = fallback_totals(act, entries.take(q as int));
                        &&& entries_total == t.entries
                        &&& size_total == t.size_bytes
                        &&& hits == t.hits
                        &&& misses == t.misses
                        &&& method_pairs(methods@) == t.methods
                    }),
                decreases self.workspaces.len() - q,
            {
                proof {
                    let p = entries.take(q + 1);
                    assert(p.drop_last() =~= entries.take(q as int));
                    assert(p.last() == entries[q as int]);
                    lemma_fallback_prefix(act, entries, q + 1);
                    lemma_le_fit(fallback_totals(act, p), full);
                }
                let w = &self.workspaces[q].1;
                proof {
                    assert(entries[q as int].1 == w@);
                }
                hits = hits + w.hits;
                misses = misses + w.misses;
                proof {
                    assert(add_method_counts(method_pairs(methods@), w.method_stats@)
                        == fallback_totals(act, entries.take(q + 1)).methods);
                }
                add_counts(&mut methods, &w.method_stats);
                q += 1;
            }
            proof {
                assert(entries.take(self.workspaces@.len() as int) =~= entries);
            }
        }
        CacheTotals {
            total_entries: entries_total,
            total_size_bytes: size_total,
            total_hits: hits,
            total_misses: misses,
            active_workspaces: active.len(),
            method_stats: methods,
        }
    }
}

/// Workspace ids made with the earlier hasher start with a hash of 16 hexadecimal
/// digits before the first `_`; current ones have 8 digits there.
pub open spec fn is_legacy_workspace_id(id: Seq<char>) -> bool {
    match find(id, seq!['_']) {
        Some(i) => i == 16 && forall|j: int| 0 <= j < 16 ==> is_ascii_hexdigit(#[trigger] id[j]),
        None => false,
    }
}

/// Check if a workspace ID is likely from a legacy cache entry
pub fn is_likely_legacy_workspace_id(workspace_id: &str) -> (r: bool)
    ensures
        r == is_legacy_workspace_id(workspace_id@),
{
    let u = chars_of(workspace_id);
    let sep = vec!['_'];
    assert(sep@ =~= seq!['_']);
    match find_exec(&u, &sep) {
        Some(i) => {
            if i != 16 {
                return false;
            }
            let mut j: usize = 0;
            while j < 16
                invariant
                    j <= 16,
                    u@ == workspace_id@,
                    find(u@, seq!['_']) == Some(16int),
                    forall|k: int| 0 <= k < j ==> is_ascii_hexdigit(#[trigger] u@[k]),
                decreases 16 - j,
            {
                proof {
                    crate::text::lemma_find(u@, seq!['_']);
                }
                let c = u[j];
                if !(('0' <= c && c <= '9') || ('a' <= c && c <= 'f') || ('A' <= c && c <= 'F')) {
                    assert(!is_ascii_hexdigit(u@[j as int]));
                    return false;
                }
                j += 1;
            }
            true
        },
        None => false,
    }
}

} // verus!
