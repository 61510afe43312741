//! Listing the keys of the cache: what a listing shows of each entry, which entries its
//! filters keep, the orders it can be sorted in, and its pages.
use vstd::prelude::*;
use crate::text::{
    append, chars_eq, chars_of, contains, contains_exec, decimal, decimal_exec, eq_lit, string_of,
    text_lt, text_lt_exec, lemma_text_lt_irrefl, lemma_text_lt_total, lemma_text_lt_trans,
};
use std::time::SystemTime;
use crate::external::{duration_since_epoch, json_first_item_name, json_first_name};
use super::key::{opt_view, parse_storage_key, CacheKey, CacheKeyView};
use super::store::CacheEntry;
use super::{method_name, LspMethod};

verus! {

broadcast use vstd::string::group_string_axioms;

/// What a key listing shows of one cache entry
#[derive(Debug)]
pub struct CacheKeyInfo {
    /// The entry's storage key
    pub key: String,
    /// The workspace-relative path of the file
    pub file_path: String,
    /// The LSP method's name
    pub operation: String,
    /// The position of the request, or `content:` and the start of the content hash
    pub position: String,
    /// The symbol the entry is about, where known
    pub symbol_name: Option<String>,
    /// Size of the cached value in bytes
    pub size_bytes: usize,
    /// How many times the entry was accessed
    pub access_count: u64,
    /// When the entry was last accessed, in seconds since the Unix epoch
    pub last_accessed: String,
    /// When the entry was created, in seconds since the Unix epoch
    pub created_at: String,
    /// The content hash of the key
    pub content_hash: String,
    /// The workspace the entry belongs to
    pub workspace_id: String,
    /// Whether the entry has expired
    pub is_expired: bool,
}

/// The model of a listed key: its texts as character sequences.
pub struct CacheKeyInfoView {
    pub key: Seq<char>,
    pub file_path: Seq<char>,
    pub operation: Seq<char>,
    pub position: Seq<char>,
    pub symbol_name: Option<Seq<char>>,
    pub size_bytes: nat,
    pub access_count: u64,
    pub last_accessed: Seq<char>,
    pub created_at: Seq<char>,
    pub content_hash: Seq<char>,
    pub workspace_id: Seq<char>,
    pub is_expired: bool,
}

impl View for CacheKeyInfo {
    type V = CacheKeyInfoView;

    open spec fn view(&self) -> CacheKeyInfoView {
        CacheKeyInfoView {
            key: self.key@,
            file_path: self.file_path@,
            operation: self.operation@,
            position: self.position@,
            symbol_name: opt_view(self.symbol_name),
            size_bytes: self.size_bytes as nat,
            access_count: self.access_count,
            last_accessed: self.last_accessed@,
            created_at: self.created_at@,
            content_hash: self.content_hash@,
            workspace_id: self.workspace_id@,
            is_expired: self.is_expired,
        }
    }
}

pub open spec fn opt_info_view(o: Option<CacheKeyInfo>) -> Option<CacheKeyInfoView> {
    match o {
        Some(i) => Some(i@),
        None => None,
    }
}

pub open spec fn opt_str_view(o: Option<&str>) -> Option<Seq<char>> {
    match o {
        Some(s) => Some(s@),
        None => None,
    }
}

// ---------------------------------------------------------------------------
// Byte prefixes of texts
// ---------------------------------------------------------------------------

/// How many bytes the UTF-8 encoding of a character takes (`char::len_utf8`).
pub open spec fn utf8_width(c: char) -> int {
    if (c as u32) < 0x80 {
        1
    } else if (c as u32) < 0x800 {
        2
    } else if (c as u32) < 0x10000 {
        3
    } else {
        4
    }
}

/// The text `&s[..n]`: the characters whose UTF-8 encoding is the first `n` bytes of
/// `s`; `None` where `s` is shorter or byte `n` falls inside a character.
pub open spec fn byte_prefix(s: Seq<char>, n: int) -> Option<Seq<char>>
    decreases s.len(),
{
    if n == 0 {
        Some(Seq::empty())
    } else if n < 0 || s.len() == 0 {
        None
    } else {
        match byte_prefix(s.drop_first(), n - utf8_width(s[0])) {
            Some(t) => Some(seq![s[0]] + t),
            None => None,
        }
    }
}

fn char_width(c: char) -> (r: usize)
    ensures
        r == utf8_width(c),
{
    let u = c as u32;
    if u < 0x80 {
        1
    } else if u < 0x800 {
        2
    } else if u < 0x10000 {
        3
    } else {
        4
    }
}

pub open spec fn opt_chars(o: Option<Vec<char>>) -> Option<Seq<char>> {
    match o {
        Some(v) => Some(v@),
        None => None,
    }
}

fn byte_prefix_exec(s: &Vec<char>, n: usize) -> (r: Option<Vec<char>>)
    ensures
        opt_chars(r) == byte_prefix(s@, n as int),
{
    let mut out: Vec<char> = Vec::new();
    let mut i: usize = 0;
    let mut rem: usize = n;
    proof {
        assert(s@.skip(0) =~= s@);
        match byte_prefix(s@, n as int) {
            Some(t) => assert(out@ + t =~= t),
            None => {},
        }
    }
    while rem > 0 && i < s.len()
        invariant
            i <= s@.len(),
            byte_prefix(s@, n as int) == match byte_prefix(s@.skip(i as int), rem as int) {
                Some(t) => Some(out@ + t),
                None => None,
            },
        decreases s.len() - i,
    {
        let c = s[i];
        let w = char_width(c);
        proof {
            assert(s@.skip(i as int)[0] == c);
            assert(s@.skip(i as int).drop_first() =~= s@.skip(i + 1));
        }
        if w > rem {
            return None;
        }
        proof {
            match byte_prefix(s@.skip(i + 1), rem - w) {
                Some(t) => assert(out@.push(c) + t =~= out@ + (seq![c] + t)),
                None => {},
            }
        }
        out.push(c);
        rem = rem - w;
        i = i + 1;
    }
    if rem == 0 {
        proof {
            assert(out@ + Seq::<char>::empty() =~= out@);
        }
        Some(out)
    } else {
        None
    }
}

// ---------------------------------------------------------------------------
// One entry of a listing
// ---------------------------------------------------------------------------

/// Whether a listing of a workspace's keys, with an operation filter and a file filter,
/// shows a key: the key is the workspace's, its method's name contains the operation
/// filter and its path contains the file filter.
pub open spec fn key_listed(
    k: CacheKeyView,
    workspace_id: Seq<char>,
    operation_filter: Option<Seq<char>>,
    file_filter: Option<Seq<char>>,
) -> bool {
    &&& k.workspace_id == workspace_id
    &&& match operation_filter {
        Some(f) => contains(method_name(k.method), f),
        None => true,
    }
    &&& match file_filter {
        Some(f) => contains(k.workspace_relative_path, f),
        None => true,
    }
}

/// Where a listed key shows no position of its own, it shows `content:` and the first
/// eight bytes of its content hash, which must then end on a character boundary.
pub open spec fn position_shown(k: CacheKeyView) -> bool {
    k.position is Some || byte_prefix(k.content_hash, 8) is Some
}

/// The keys a listing can show without failing: every key that parses and passes the
/// filters has a position to show.
pub open spec fn listable(
    storage_key: Seq<char>,
    workspace_id: Seq<char>,
    operation_filter: Option<Seq<char>>,
    file_filter: Option<Seq<char>>,
) -> bool {
    match parse_storage_key(storage_key) {
        Some(k) => key_listed(k, workspace_id, operation_filter, file_filter) ==> position_shown(k),
        None => true,
    }
}

/// What a listing shows of a key: its storage key, path, method name and content hash;
/// its position or else `content:` and the start of its content hash; its symbol, or for
/// a call hierarchy the name of the first item of the cached value; the size of the
/// cached value, how often it was accessed, and its two times in decimal seconds.
pub open spec fn info_of(
    storage_key: Seq<char>,
    k: CacheKeyView,
    data: Seq<u8>,
    access_count: u64,
    created_secs: u64,
    last_accessed_secs: u64,
) -> CacheKeyInfoView {
    CacheKeyInfoView {
        key: storage_key,
        file_path: k.workspace_relative_path,
        operation: method_name(k.method),
        position: match k.position {
            Some(p) => p,
            None => "content:"@ + byte_prefix(k.content_hash, 8).unwrap(),
        },
        symbol_name: match k.symbol_name {
            Some(s) => Some(s),
            None => if k.method == LspMethod::CallHierarchy {
                json_first_name(data)
            } else {
                None
            },
        },
        size_bytes: data.len(),
        access_count,
        last_accessed: decimal(last_accessed_secs as nat),
        created_at: decimal(created_secs as nat),
        content_hash: k.content_hash,
        workspace_id: k.workspace_id,
        is_expired: false,
    }
}

/// What a listing shows for a stored entry: nothing where the storage key does not
/// parse or the key is not listed, else the key's information.
pub open spec fn listed_info(
    storage_key: Seq<char>,
    data: Seq<u8>,
    access_count: u64,
    created_secs: u64,
    last_accessed_secs: u64,
    workspace_id: Seq<char>,
    operation_filter: Option<Seq<char>>,
    file_filter: Option<Seq<char>>,
) -> Option<CacheKeyInfoView> {
    match parse_storage_key(storage_key) {
        Some(k) => if key_listed(k, workspace_id, operation_filter, file_filter) {
            Some(info_of(storage_key, k, data, access_count, created_secs, last_accessed_secs))
        } else {
            None
        },
        None => None,
    }
}

fn opt_contains(text: &str, filter: Option<&str>) -> (r: bool)
    ensures
        r == match opt_str_view(filter) {
            Some(f) => contains(text@, f),
            None => true,
        },
{
    match filter {
        Some(f) => contains_exec(&chars_of(text), &chars_of(f)),
        None => true,
    }
}

/// Whether a listing can show a stored entry's key without failing (see `listable`)
pub fn key_listable(
    storage_key: &str,
    workspace_id: &str,
    operation_filter: Option<&str>,
    file_pattern_filter: Option<&str>,
) -> (r: bool)
    ensures
        r == listable(
            storage_key@,
            workspace_id@,
            opt_str_view(operation_filter),
            opt_str_view(file_pattern_filter),
        ),
{
    match CacheKey::from_storage_key(storage_key) {
        None => true,
        Some(k) => {
            let listed = chars_eq(&chars_of(k.workspace_id.as_str()), &chars_of(workspace_id))
                && opt_contains(k.method.as_str(), operation_filter) && opt_contains(
                k.workspace_relative_path.as_str(),
                file_pattern_filter,
            );
            !listed || k.position.is_some() || byte_prefix_exec(
                &chars_of(k.content_hash.as_str()),
                8,
            ).is_some()
        },
    }
}

/// What a key listing shows of one stored entry, given the entry's cached value, its
/// access count and its creation and last access times in seconds: `None` where the
/// storage key does not parse, belongs to another workspace, or fails a filter.
pub fn key_info(
    storage_key: &str,
    data: &Vec<u8>,
    access_count: u64,
    created_secs: u64,
    last_accessed_secs: u64,
    workspace_id: &str,
    operation_filter: Option<&str>,
    file_pattern_filter: Option<&str>,
) -> (r: Option<CacheKeyInfo>)
    requires
        listable(
            storage_key@,
            workspace_id@,
            opt_str_view(operation_filter),
            opt_str_view(file_pattern_filter),
        ),
    ensures
        opt_info_view(r) == listed_info(
            storage_key@,
            data@,
            access_count,
            created_secs,
            last_accessed_secs,
            workspace_id@,
            opt_str_view(operation_filter),
            opt_str_view(file_pattern_filter),
        ),
{
    let cache_key = match CacheKey::from_storage_key(storage_key) {
        Some(k) => k,
        None => return None,
    };
    if !chars_eq(&chars_of(cache_key.workspace_id.as_str()), &chars_of(workspace_id)) {
        return None;
    }
    let operation = cache_key.method.as_str();
    if !opt_contains(operation, operation_filter) {
        return None;
    }
    if !opt_contains(cache_key.workspace_relative_path.as_str(), file_pattern_filter) {
        return None;
    }
    let ghost k = cache_key@;
    let position = match &cache_key.position {
        Some(p) => string_of(&chars_of(p.as_str())),
        None => {
            let prefix = byte_prefix_exec(&chars_of(cache_key.content_hash.as_str()), 8);
            let mut text = chars_of("content:");
            match prefix {
                Some(p) => append(&mut text, &p),
                None => {
                    proof {
                        assert(false);
                    }
                },
            }
            string_of(&text)
        },
    };
    let symbol_name = match &cache_key.symbol_name {
        Some(s) => Some(string_of(&chars_of(s.as_str()))),
        None => {
            if cache_key.method == LspMethod::CallHierarchy {
                json_first_item_name(data.as_slice())
            } else {
                None
            }
        },
    };
    let info = CacheKeyInfo {
        key: string_of(&chars_of(storage_key)),
        file_path: cache_key.workspace_relative_path,
        operation: string_of(&chars_of(operation)),
        position,
        symbol_name,
        size_bytes: data.len(),
        access_count,
        last_accessed: string_of(&decimal_exec(last_accessed_secs)),
        created_at: string_of(&decimal_exec(created_secs)),
        content_hash: cache_key.content_hash,
        workspace_id: cache_key.workspace_id,
        is_expired: false,
    };
    proof {
        assert(info@.position == info_of(storage_key@, k, data@, access_count, created_secs, last_accessed_secs).position);
    }
    Some(info)
}

/// Whole seconds from the Unix epoch to a time; 0 for a time before it.
fn secs_since_epoch(t: &SystemTime) -> u64 {
    match duration_since_epoch(t) {
        Some(d) => d.as_secs(),
        None => 0,
    }
}

/// What a listing shows of a stored entry, the entry's times read as seconds since the
/// Unix epoch. The times are whatever the entry holds, so the contract leaves them open:
/// the rest is `listed_info` exactly.
pub fn key_info_for_entry(
    storage_key: &str,
    entry: &CacheEntry,
    workspace_id: &str,
    operation_filter: Option<&str>,
    file_pattern_filter: Option<&str>,
) -> (r: Option<CacheKeyInfo>)
    requires
        listable(
            storage_key@,
            workspace_id@,
            opt_str_view(operation_filter),
            opt_str_view(file_pattern_filter),
        ),
    ensures
        exists|secs: (u64, u64)|
            opt_info_view(r) == #[trigger] listed_info(
                storage_key@,
                entry.data@,
                entry.metadata.spec_access_count(),
                secs.0,
                secs.1,
                workspace_id@,
                opt_str_view(operation_filter),
                opt_str_view(file_pattern_filter),
            ),
{
    let created = secs_since_epoch(&entry.metadata.created_at());
    let accessed = secs_since_epoch(&entry.metadata.last_accessed());
    let r = key_info(
        storage_key,
        &entry.data,
        entry.metadata.access_count(),
        created,
        accessed,
        workspace_id,
        operation_filter,
        file_pattern_filter,
    );
    proof {
        let secs = (created, accessed);
        assert(opt_info_view(r) == listed_info(
            storage_key@,
            entry.data@,
            entry.metadata.spec_access_count(),
            secs.0,
            secs.1,
            workspace_id@,
            opt_str_view(operation_filter),
            opt_str_view(file_pattern_filter),
        ));
    }
    r
}

/// What a listing shows of one stored entry, given the seconds of its two times.
pub open spec fn entry_listing(
    e: (String, CacheEntry),
    secs: (u64, u64),
    workspace_id: Seq<char>,
    operation_filter: Option<Seq<char>>,
    file_filter: Option<Seq<char>>,
) -> Option<CacheKeyInfoView> {
    listed_info(
        e.0@,
        e.1.data@,
        e.1.metadata.spec_access_count(),
        secs.0,
        secs.1,
        workspace_id,
        operation_filter,
        file_filter,
    )
}

/// What a listing of a workspace shows of stored entries, in their order, given the
/// seconds of each entry's two times.
pub open spec fn listed_infos(
    entries: Seq<(String, CacheEntry)>,
    secs: Seq<(u64, u64)>,
    workspace_id: Seq<char>,
    operation_filter: Option<Seq<char>>,
    file_filter: Option<Seq<char>>,
) -> Seq<CacheKeyInfoView>
    decreases entries.len(),
{
    if entries.len() == 0 {
        Seq::empty()
    } else {
        let before = listed_infos(
            entries.drop_last(),
            secs.drop_last(),
            workspace_id,
            operation_filter,
            file_filter,
        );
        match entry_listing(
            entries.last(),
            secs.last(),
            workspace_id,
            operation_filter,
            file_filter,
        ) {
            Some(v) => before.push(v),
            None => before,
        }
    }
}

pub open spec fn infos_view(v: Seq<CacheKeyInfo>) -> Seq<CacheKeyInfoView> {
    v.map_values(|i: CacheKeyInfo| i@)
}

/// What a listing of a workspace's keys shows of its stored entries, in their order:
/// the entries whose keys parse, are the workspace's and pass the filters. The entries'
/// times are read as seconds since the Unix epoch, whatever they hold.
pub fn list_workspace_keys(
    entries: &Vec<(String, CacheEntry)>,
    workspace_id: &str,
    operation_filter: Option<&str>,
    file_pattern_filter: Option<&str>,
) -> (r: Vec<CacheKeyInfo>)
    requires
        forall|i: int|
            0 <= i < entries@.len() ==> listable(
                (#[trigger] entries@[i]).0@,
                workspace_id@,
                opt_str_view(operation_filter),
                opt_str_view(file_pattern_filter),
            ),
    ensures
        exists|secs: Seq<(u64, u64)>|
            secs.len() == entries@.len() && infos_view(r@) == #[trigger] listed_infos(
                entries@,
                secs,
                workspace_id@,
                opt_str_view(operation_filter),
                opt_str_view(file_pattern_filter),
            ),
{
    let ghost of = opt_str_view(operation_filter);
    let ghost ff = opt_str_view(file_pattern_filter);
    let mut out: Vec<CacheKeyInfo> = Vec::new();
    let ghost mut secs: Seq<(u64, u64)> = Seq::empty();
    let mut i: usize = 0;
    while i < entries.len()
        invariant
            i <= entries@.len(),
            secs.len() == i,
            of == opt_str_view(operation_filter),
            ff == opt_str_view(file_pattern_filter),
            forall|k: int|
                0 <= k < entries@.len() ==> listable(
                    (#[trigger] entries@[k]).0@,
                    workspace_id@,
                    of,
                    ff,
                ),
            infos_view(out@) == listed_infos(entries@.take(i as int), secs, workspace_id@, of, ff),
        decreases entries.len() - i,
    {
        let info = key_info_for_entry(
            entries[i].0.as_str(),
            &entries[i].1,
            workspace_id,
            operation_filter,
            file_pattern_filter,
        );
        let ghost pick = choose|s: (u64, u64)|
            opt_info_view(info) == #[trigger] listed_info(
                entries@[i as int].0@,
                entries@[i as int].1.data@,
                entries@[i as int].1.metadata.spec_access_count(),
                s.0,
                s.1,
                workspace_id@,
                of,
                ff,
            );
        let ghost before = out@;
        proof {
            let ts = entries@.take(i + 1);
            assert(ts.drop_last() =~= entries@.take(i as int));
            assert(ts.last() == entries@[i as int]);
            assert(secs.push(pick).drop_last() =~= secs);
            assert(opt_info_view(info) == entry_listing(entries@[i as int], pick, workspace_id@, of, ff));
        }
        match info {
            Some(v) => {
                out.push(v);
                proof {
                    assert(infos_view(out@) =~= infos_view(before).push(v@));
                }
            },
            None => {},
        }
        proof {
            secs = secs.push(pick);
        }
        i += 1;
    }
    proof {
        assert(entries@.take(i as int) =~= entries@);
    }
    out
}

// ---------------------------------------------------------------------------
// Orders of a listing
// ---------------------------------------------------------------------------

/// The orders a key listing can be sorted in
#[derive(Debug, Clone, Copy, PartialEq, Eq, Structural)]
pub enum KeyOrder {
    /// Newest first
    CreatedAt,
    /// Most recently accessed first
    LastAccessed,
    /// Most accessed first
    AccessCount,
    /// Largest first
    SizeBytes,
    /// Alphabetical by file path
    FilePath,
    /// Alphabetical by operation
    Operation,
}

/// The order a listing's `sort_by` names: `created_at`, `last_accessed`, `access_count`,
/// `size_bytes`, `file_path` or `operation`; by last access where it names none of them.
pub open spec fn key_order_named(sort_by: Option<Seq<char>>) -> KeyOrder {
    match sort_by {
        Some(s) => if s == "created_at"@ {
            KeyOrder::CreatedAt
        } else if s == "last_accessed"@ {
            KeyOrder::LastAccessed
        } else if s == "access_count"@ {
            KeyOrder::AccessCount
        } else if s == "size_bytes"@ {
            KeyOrder::SizeBytes
        } else if s == "file_path"@ {
            KeyOrder::FilePath
        } else if s == "operation"@ {
            KeyOrder::Operation
        } else {
            KeyOrder::LastAccessed
        },
        None => KeyOrder::LastAccessed,
    }
}

/// The order a listing's `sort_by` names
pub fn key_order(sort_by: Option<&str>) -> (r: KeyOrder)
    ensures
        r == key_order_named(opt_str_view(sort_by)),
{
    match sort_by {
        Some(s) => {
            let c = chars_of(s);
            if eq_lit(&c, "created_at") {
                KeyOrder::CreatedAt
            } else if eq_lit(&c, "last_accessed") {
                KeyOrder::LastAccessed
            } else if eq_lit(&c, "access_count") {
                KeyOrder::AccessCount
            } else if eq_lit(&c, "size_bytes") {
                KeyOrder::SizeBytes
            } else if eq_lit(&c, "file_path") {
                KeyOrder::FilePath
            } else if eq_lit(&c, "operation") {
                KeyOrder::Operation
            } else {
                KeyOrder::LastAccessed
            }
        },
        None => KeyOrder::LastAccessed,
    }
}

/// What an order sorts by: a number, or a text compared character by character.
pub open spec fn sort_key(o: KeyOrder, k: CacheKeyInfo) -> (int, Seq<char>) {
    match o {
        KeyOrder::CreatedAt => (0, k.created_at@),
        KeyOrder::LastAccessed => (0, k.last_accessed@),
        KeyOrder::AccessCount => (k.access_count as int, Seq::empty()),
        KeyOrder::SizeBytes => (k.size_bytes as int, Seq::empty()),
        KeyOrder::FilePath => (0, k.file_path@),
        KeyOrder::Operation => (0, k.operation@),
    }
}

/// Whether an order puts greater keys first.
pub open spec fn descending(o: KeyOrder) -> bool {
    !(o is FilePath || o is Operation)
}

pub open spec fn key_lt(a: (int, Seq<char>), b: (int, Seq<char>)) -> bool {
    a.0 < b.0 || (a.0 == b.0 && text_lt(a.1, b.1))
}

/// Whether a listing in order `o` puts `a` strictly before `b`.
pub open spec fn goes_before(o: KeyOrder, a: CacheKeyInfo, b: CacheKeyInfo) -> bool {
    if descending(o) {
        key_lt(sort_key(o, b), sort_key(o, a))
    } else {
        key_lt(sort_key(o, a), sort_key(o, b))
    }
}

/// No key of the listing belongs strictly before one that precedes it.
pub open spec fn in_key_order(o: KeyOrder, s: Seq<CacheKeyInfo>) -> bool {
    forall|i: int, j: int| 0 <= i < j < s.len() ==> !goes_before(o, #[trigger] s[j], #[trigger] s[i])
}

/// Whether a key sorts by a given value.
pub open spec fn sorts_by(o: KeyOrder, value: (int, Seq<char>)) -> spec_fn(CacheKeyInfo) -> bool {
    |k: CacheKeyInfo| sort_key(o, k) == value
}

/// The keys of a listing that sort by one value, in their order.
pub open spec fn with_sort_key(o: KeyOrder, s: Seq<CacheKeyInfo>, value: (int, Seq<char>)) -> Seq<
    CacheKeyInfo,
> {
    s.filter(sorts_by(o, value))
}

/// The listing `s` holds the keys of `orig` in order `o`, and keys that sort alike keep
/// the order they had in `orig`.
pub open spec fn sorted_listing(o: KeyOrder, orig: Seq<CacheKeyInfo>, s: Seq<CacheKeyInfo>) -> bool {
    &&& s.to_multiset() == orig.to_multiset()
    &&& in_key_order(o, s)
    &&& forall|value: (int, Seq<char>)| #[trigger] with_sort_key(o, s, value) == with_sort_key(o, orig, value)
}

proof fn lemma_goes_before_trans(o: KeyOrder, a: CacheKeyInfo, b: CacheKeyInfo, c: CacheKeyInfo)
    requires
        goes_before(o, a, b),
        goes_before(o, b, c),
    ensures
        goes_before(o, a, c),
{
    let (ka, kb, kc) = (sort_key(o, a), sort_key(o, b), sort_key(o, c));
    if descending(o) {
        if kc.0 == kb.0 && kb.0 == ka.0 {
            lemma_text_lt_trans(kc.1, kb.1, ka.1);
        }
    } else {
        if ka.0 == kb.0 && kb.0 == kc.0 {
            lemma_text_lt_trans(ka.1, kb.1, kc.1);
        }
    }
}

proof fn lemma_goes_before_irrefl(o: KeyOrder, a: CacheKeyInfo, b: CacheKeyInfo)
    requires
        sort_key(o, a) == sort_key(o, b),
    ensures
        !goes_before(o, a, b),
{
    lemma_text_lt_irrefl(sort_key(o, a).1);
}

fn goes_before_exec(o: KeyOrder, a: &CacheKeyInfo, b: &CacheKeyInfo) -> (r: bool)
    ensures
        r == goes_before(o, *a, *b),
{
    match o {
        KeyOrder::CreatedAt => text_lt_exec(&chars_of(b.created_at.as_str()), &chars_of(a.created_at.as_str())),
        KeyOrder::LastAccessed => text_lt_exec(
            &chars_of(b.last_accessed.as_str()),
            &chars_of(a.last_accessed.as_str()),
        ),
        KeyOrder::AccessCount => b.access_count < a.access_count,
        KeyOrder::SizeBytes => b.size_bytes < a.size_bytes,
        KeyOrder::FilePath => text_lt_exec(&chars_of(a.file_path.as_str()), &chars_of(b.file_path.as_str())),
        KeyOrder::Operation => text_lt_exec(&chars_of(a.operation.as_str()), &chars_of(b.operation.as_str())),
    }
}

proof fn lemma_sort_key_none(o: KeyOrder, s: Seq<CacheKeyInfo>, value: (int, Seq<char>))
    requires
        forall|i: int| 0 <= i < s.len() ==> sort_key(o, #[trigger] s[i]) != value,
    ensures
        with_sort_key(o, s, value) == Seq::<CacheKeyInfo>::empty(),
    decreases s.len(),
{
    if s.len() == 0 {
        assert(with_sort_key(o, s, value) =~= Seq::<CacheKeyInfo>::empty());
    } else {
        let d = s.drop_last();
        assert(forall|i: int| 0 <= i < d.len() ==> d[i] == s[i]);
        lemma_sort_key_none(o, d, value);
        assert(s =~= d.push(s.last()));
        d.lemma_filter_push(s.last(), sorts_by(o, value));
    }
}

/// Inserting a key before all keys it goes before and after all the others leaves the
/// keys of each sort value in order, with the new one last among its own value's.
proof fn lemma_sort_key_insert(
    o: KeyOrder,
    s: Seq<CacheKeyInfo>,
    j: int,
    p: CacheKeyInfo,
    value: (int, Seq<char>),
)
    requires
        0 <= j <= s.len(),
        forall|i: int| j <= i < s.len() ==> sort_key(o, #[trigger] s[i]) != sort_key(o, p),
    ensures
        with_sort_key(o, s.insert(j, p), value) == if sort_key(o, p) == value {
            with_sort_key(o, s, value).push(p)
        } else {
            with_sort_key(o, s, value)
        },
{
    let pred = sorts_by(o, value);
    let a = s.subrange(0, j);
    let b = s.subrange(j, s.len() as int);
    assert(s =~= a + b);
    assert(s.insert(j, p) =~= a.push(p) + b);
    Seq::filter_distributes_over_add(a.push(p), b, pred);
    Seq::filter_distributes_over_add(a, b, pred);
    a.lemma_filter_push(p, pred);
    if sort_key(o, p) == value {
        assert forall|i: int| 0 <= i < b.len() implies sort_key(o, #[trigger] b[i]) != value by {
            assert(b[i] == s[j + i]);
        }
        lemma_sort_key_none(o, b, value);
        assert(with_sort_key(o, s, value) =~= with_sort_key(o, a, value));
        assert(with_sort_key(o, s.insert(j, p), value) =~= with_sort_key(o, a, value).push(p));
    } else {
        assert(with_sort_key(o, s.insert(j, p), value) =~= with_sort_key(o, a, value) + with_sort_key(
            o,
            b,
            value,
        ));
    }
}

/// Sort a listing's keys in the order `sort_by` names (see `key_order`); the sort is
/// stable: keys that sort alike keep their order
pub fn sort_cache_keys(keys: &mut Vec<CacheKeyInfo>, sort_by: Option<&str>)
    ensures
        sorted_listing(key_order_named(opt_str_view(sort_by)), old(keys)@, final(keys)@),
        final(keys)@.len() == old(keys)@.len(),
{
    broadcast use vstd::seq_lib::group_to_multiset_ensures;

    let o = key_order(sort_by);
    let mut rest: Vec<CacheKeyInfo> = Vec::new();
    std::mem::swap(&mut rest, keys);
    let ghost orig = rest@;
    let n = rest.len();
    assert(orig.len() == n);
    let mut out: Vec<CacheKeyInfo> = Vec::new();
    let mut consumed: usize = 0;
    while rest.len() > 0
        invariant
            consumed <= orig.len(),
            consumed + rest@.len() == orig.len(),
            orig.len() <= usize::MAX,
            o == key_order_named(opt_str_view(sort_by)),
            rest@ == orig.skip(consumed as int),
            out@.to_multiset() == orig.take(consumed as int).to_multiset(),
            in_key_order(o, out@),
            forall|value: (int, Seq<char>)|
                #[trigger] with_sort_key(o, out@, value) == with_sort_key(
                    o,
                    orig.take(consumed as int),
                    value,
                ),
        decreases rest.len(),
    {
        let p = rest.remove(0);
        let ghost gp = p;
        proof {
            assert(p == orig[consumed as int]);
            assert(orig.take(consumed + 1) =~= orig.take(consumed as int).push(p));
            assert(rest@ =~= orig.skip(consumed + 1));
        }
        let mut j: usize = 0;
        while j < out.len()
            invariant
                j <= out@.len(),
                p == gp,
                in_key_order(o, out@),
                forall|k: int| 0 <= k < j ==> !goes_before(o, gp, #[trigger] out@[k]),
            ensures
                j <= out@.len(),
                forall|k: int| 0 <= k < j ==> !goes_before(o, gp, #[trigger] out@[k]),
                j < out@.len() ==> goes_before(o, gp, out@[j as int]),
            decreases out.len() - j,
        {
            if goes_before_exec(o, &p, &out[j]) {
                break;
            }
            j += 1;
        }
        let ghost before = out@;
        out.insert(j, p);
        proof {
            assert(out@ == before.insert(j as int, gp));
            vstd::seq_lib::to_multiset_insert(before, j as int, gp);
            let f = orig.take(consumed as int);
            vstd::seq_lib::to_multiset_build(f, gp);
            assert forall|i: int| j <= i < before.len() implies sort_key(o, #[trigger] before[i])
                != sort_key(o, gp) by {
                if sort_key(o, before[i]) == sort_key(o, gp) {
                    if i > j {
                        assert(!goes_before(o, before[i], before[j as int]));
                    } else {
                        lemma_goes_before_irrefl(o, gp, before[i]);
                    }
                }
            }
            assert forall|value: (int, Seq<char>)| #[trigger] with_sort_key(o, out@, value)
                == with_sort_key(o, orig.take(consumed + 1), value) by {
                lemma_sort_key_insert(o, before, j as int, gp, value);
                f.lemma_filter_push(gp, sorts_by(o, value));
            }
            assert(out@[j as int] == gp);
            assert(forall|k: int| 0 <= k < j ==> out@[k] == before[k]);
            assert(forall|k: int| j < k < out@.len() ==> out@[k] == before[k - 1]);
            assert forall|a: int, b: int| 0 <= a < b < out@.len() implies !goes_before(
                o,
                #[trigger] out@[b],
                #[trigger] out@[a],
            ) by {
                if b < j {
                    assert(out@[a] == before[a] && out@[b] == before[b]);
                } else if b == j {
                    assert(out@[a] == before[a]);
                } else if a == j {
                    let y = before[b - 1];
                    assert(out@[b] == y);
                    if goes_before(o, y, gp) {
                        lemma_goes_before_trans(o, y, gp, before[j as int]);
                        if b - 1 > j {
                            assert(!goes_before(o, before[b - 1], before[j as int]));
                        } else {
                            lemma_goes_before_irrefl(o, y, y);
                        }
                    }
                } else if a < j {
                    assert(out@[a] == before[a] && out@[b] == before[b - 1]);
                } else {
                    assert(out@[a] == before[a - 1] && out@[b] == before[b - 1]);
                }
            }
        }
        consumed += 1;
    }
    proof {
        assert(orig.take(consumed as int) =~= orig);
        assert(out@.to_multiset().len() == orig.to_multiset().len());
    }
    *keys = out;
}

// ---------------------------------------------------------------------------
// Pages
// ---------------------------------------------------------------------------

/// The page of a listing that starts `offset` items in and holds at most `limit` items
/// (`skip(offset).take(limit)`).
pub open spec fn page<T>(s: Seq<T>, offset: int, limit: int) -> Seq<T> {
    let start = if offset < s.len() {
        offset
    } else {
        s.len() as int
    };
    let rest = s.skip(start);
    rest.take(
        if limit < rest.len() {
            limit
        } else {
            rest.len() as int
        },
    )
}

/// The items of a listing from `offset` on, at most `limit` of them
pub fn page_of<T>(items: Vec<T>, offset: usize, limit: usize) -> (r: Vec<T>)
    ensures
        r@ == page(items@, offset as int, limit as int),
{
    let ghost orig = items@;
    let mut items = items;
    let start = if offset < items.len() {
        offset
    } else {
        items.len()
    };
    let mut tail = items.split_off(start);
    proof {
        assert(tail@ =~= orig.skip(start as int)) by {
            assert(items@.len() == start);
        }
    }
    if limit < tail.len() {
        tail.truncate(limit);
    }
    proof {
        let rest = orig.skip(start as int);
        assert(tail@ =~= page(orig, offset as int, limit as int)) by {
            assert(rest.take(rest.len() as int) =~= rest);
        }
    }
    tail
}

/// Sorts the keys gathered for a listing in the order `sort_by` names and cuts the page
/// that starts `offset` keys in and holds at most `limit`; gives the page and how many
/// keys there were in all
pub fn order_and_page_keys(
    keys: Vec<CacheKeyInfo>,
    sort_by: Option<&str>,
    limit: usize,
    offset: usize,
) -> (r: (Vec<CacheKeyInfo>, usize))
    ensures
        r.1 == keys@.len(),
        exists|s: Seq<CacheKeyInfo>|
            sorted_listing(key_order_named(opt_str_view(sort_by)), keys@, s) && r.0@ == page(
                s,
                offset as int,
                limit as int,
            ),
{
    let mut all_keys = keys;
    sort_cache_keys(&mut all_keys, sort_by);
    let total = all_keys.len();
    let ghost sorted = all_keys@;
    let page_keys = page_of(all_keys, offset, limit);
    proof {
        broadcast use vstd::seq_lib::group_to_multiset_ensures;

        assert(sorted.to_multiset().len() == keys@.to_multiset().len());
    }
    (page_keys, total)
}

/// Consecutive pages of a listing join up: the page of `a` items at `offset`, followed
/// by the page of `b` items right after it, is the page of `a + b` items at `offset`.
pub proof fn law_pages_join<T>(s: Seq<T>, offset: nat, a: nat, b: nat)
    ensures
        page(s, offset as int, a as int) + page(s, (offset + a) as int, b as int) =~= page(
            s,
            offset as int,
            (a + b) as int,
        ),
{
}

proof fn lemma_goes_before_total(o: KeyOrder, a: CacheKeyInfo, b: CacheKeyInfo)
    requires
        sort_key(o, a) != sort_key(o, b),
    ensures
        goes_before(o, a, b) || goes_before(o, b, a),
{
    let (ka, kb) = (sort_key(o, a), sort_key(o, b));
    if ka.0 == kb.0 {
        lemma_text_lt_total(ka.1, kb.1);
    }
}

proof fn lemma_same_sorted_equal(o: KeyOrder, s1: Seq<CacheKeyInfo>, s2: Seq<CacheKeyInfo>)
    requires
        s1.to_multiset() == s2.to_multiset(),
        in_key_order(o, s1),
        in_key_order(o, s2),
        forall|v: (int, Seq<char>)| #[trigger] with_sort_key(o, s1, v) == with_sort_key(o, s2, v),
    ensures
        s1 == s2,
    decreases s1.len(),
{
    broadcast use vstd::seq_lib::group_to_multiset_ensures;

    assert(s1.to_multiset().len() == s1.len() && s2.to_multiset().len() == s2.len());
    if s1.len() == 0 {
        assert(s2.len() == 0);
        assert(s1 =~= s2);
    } else {
        let n = s1.len() as int;
        assert(s2.len() == n);
        let x1 = s1.last();
        let x2 = s2.last();
        let d1 = s1.drop_last();
        let d2 = s2.drop_last();
        assert(s1 =~= d1.push(x1));
        assert(s2 =~= d2.push(x2));
        assert(s2[n - 1] == x2);
        assert(s2.contains(x2));
        assert(s2.to_multiset().count(x2) > 0);
        assert(s1.to_multiset().count(x2) > 0);
        assert(s1.contains(x2));
        let k1 = choose|k: int| 0 <= k < n && s1[k] == x2;
        if k1 < n - 1 {
            assert(!goes_before(o, s1[n - 1], s1[k1]));
        } else {
            lemma_goes_before_irrefl(o, x1, x2);
        }
        assert(s1[n - 1] == x1);
        assert(s1.contains(x1));
        assert(s1.to_multiset().count(x1) > 0);
        assert(s2.to_multiset().count(x1) > 0);
        assert(s2.contains(x1));
        let k2 = choose|k: int| 0 <= k < n && s2[k] == x1;
        if k2 < n - 1 {
            assert(!goes_before(o, s2[n - 1], s2[k2]));
        } else {
            lemma_goes_before_irrefl(o, x2, x1);
        }
        if sort_key(o, x1) != sort_key(o, x2) {
            lemma_goes_before_total(o, x1, x2);
        }
        let v = sort_key(o, x1);
        d1.lemma_filter_push(x1, sorts_by(o, v));
        d2.lemma_filter_push(x2, sorts_by(o, v));
        assert(with_sort_key(o, s1, v) == with_sort_key(o, d1, v).push(x1));
        assert(with_sort_key(o, s2, v) == with_sort_key(o, d2, v).push(x2));
        assert(x1 == x2) by {
            assert(with_sort_key(o, s1, v).last() == x1);
            assert(with_sort_key(o, s2, v).last() == x2);
        }
        assert forall|w: (int, Seq<char>)| #[trigger] with_sort_key(o, d1, w) == with_sort_key(
            o,
            d2,
            w,
        ) by {
            d1.lemma_filter_push(x1, sorts_by(o, w));
            d2.lemma_filter_push(x2, sorts_by(o, w));
            assert(with_sort_key(o, s1, w) == with_sort_key(o, s2, w));
            if sort_key(o, x1) == w {
                assert(with_sort_key(o, d1, w) =~= with_sort_key(o, s1, w).drop_last());
                assert(with_sort_key(o, d2, w) =~= with_sort_key(o, s2, w).drop_last());
            }
        }
        assert(d1.to_multiset() =~= d2.to_multiset()) by {
            assert(s1.to_multiset() == d1.to_multiset().insert(x1));
            assert(s2.to_multiset() == d2.to_multiset().insert(x2));
            assert forall|y: CacheKeyInfo| d1.to_multiset().count(y) == d2.to_multiset().count(y) by {
                broadcast use vstd::multiset::group_multiset_axioms;

                assert(s1.to_multiset().count(y) == s2.to_multiset().count(y));
                assert(d1.to_multiset().insert(x1).count(y) == s1.to_multiset().count(y));
                assert(d2.to_multiset().insert(x2).count(y) == s2.to_multiset().count(y));
                if y == x1 {
                    assert(d1.to_multiset().insert(x1).count(y) == d1.to_multiset().count(y) + 1);
                    assert(d2.to_multiset().insert(x2).count(y) == d2.to_multiset().count(y) + 1);
                } else {
                    assert(d1.to_multiset().insert(x1).count(y) == d1.to_multiset().count(y));
                    assert(d2.to_multiset().insert(x2).count(y) == d2.to_multiset().count(y));
                }
            }
        }
        assert(in_key_order(o, d1)) by {
            assert forall|i: int, j: int| 0 <= i < j < d1.len() implies !goes_before(
                o,
                #[trigger] d1[j],
                #[trigger] d1[i],
            ) by {
                assert(d1[i] == s1[i] && d1[j] == s1[j]);
            }
        }
        assert(in_key_order(o, d2)) by {
            assert forall|i: int, j: int| 0 <= i < j < d2.len() implies !goes_before(
                o,
                #[trigger] d2[j],
                #[trigger] d2[i],
            ) by {
                assert(d2[i] == s2[i] && d2[j] == s2[j]);
            }
        }
        lemma_same_sorted_equal(o, d1, d2);
        assert(s1 =~= s2);
    }
}

/// A listing's order is determined: two listings of the same keys, each in order and
/// each keeping the order of keys that sort alike, are the same.
pub proof fn law_sorted_listing_unique(
    o: KeyOrder,
    orig: Seq<CacheKeyInfo>,
    s1: Seq<CacheKeyInfo>,
    s2: Seq<CacheKeyInfo>,
)
    requires
        sorted_listing(o, orig, s1),
        sorted_listing(o, orig, s2),
    ensures
        s1 == s2,
{
    assert forall|v: (int, Seq<char>)| #[trigger] with_sort_key(o, s1, v) == with_sort_key(o, s2, v) by {
        assert(with_sort_key(o, s1, v) == with_sort_key(o, orig, v));
        assert(with_sort_key(o, s2, v) == with_sort_key(o, orig, v));
    }
    lemma_same_sorted_equal(o, s1, s2);
}

} // verus!
