//! Content-addressed cache keys and their storage representation.
use vstd::prelude::*;
use crate::text::{
    append, chars_eq, chars_of, has_char, lemma_replace_char, lemma_splitn_none, lemma_splitn_step,
    decimal, decimal_exec, map_char, replace, replace_exec, slice, splitn, splitn_exec, string_of,
};
use crate::universal_cache::{LspMethod, method_name, all_methods};
use crate::external::{
    blake3_bytes_hex, blake3_hex, blake3_hex_bytes, blake3_hex_of, file_name_of, join_path, json_position, json_position_fields, parent_of, path_file_name, path_join,
    path_parent, path_relative_to, strip_path_prefix,
};

verus! {

/// A content-addressed cache key
#[derive(Debug, Clone, PartialEq, Eq, Hash)]
pub struct CacheKey {
    /// Workspace-relative file path for portability
    pub workspace_relative_path: String,
    /// LSP method being cached
    pub method: LspMethod,
    /// Blake3 hash of the cache key components
    pub content_hash: String,
    /// Workspace identifier for routing
    pub workspace_id: String,
    /// File modification time (for quick staleness checks)
    pub file_mtime: u64,
    /// Optional symbol name extracted from response (for display purposes)
    pub symbol_name: Option<String>,
    /// Optional position info (line:column) for display
    pub position: Option<String>,
}

/// The model of a cache key: its text fields as character sequences.
pub struct CacheKeyView {
    pub workspace_relative_path: Seq<char>,
    pub method: LspMethod,
    pub content_hash: Seq<char>,
    pub workspace_id: Seq<char>,
    pub file_mtime: u64,
    pub symbol_name: Option<Seq<char>>,
    pub position: Option<Seq<char>>,
}

pub open spec fn opt_view(o: Option<String>) -> Option<Seq<char>> {
    match o {
        Some(s) => Some(s@),
        None => None,
    }
}

impl View for CacheKey {
    type V = CacheKeyView;

    open spec fn view(&self) -> CacheKeyView {
        CacheKeyView {
            workspace_relative_path: self.workspace_relative_path@,
            method: self.method,
            content_hash: self.content_hash@,
            workspace_id: self.workspace_id@,
            file_mtime: self.file_mtime,
            symbol_name: opt_view(self.symbol_name),
            position: opt_view(self.position),
        }
    }
}

/// A method's name as it appears inside a storage key: `/` becomes `_`.
pub open spec fn method_key_name(m: LspMethod) -> Seq<char> {
    replace(method_name(m), "/"@, "_"@)
}

/// The storage key of a cache key:
/// `workspace_id:method:path:content_hash`, followed by `:symbol_name` when there is one.
pub open spec fn storage_key(k: CacheKeyView) -> Seq<char> {
    let base = k.workspace_id + ":"@ + method_key_name(k.method) + ":"@
        + k.workspace_relative_path + ":"@ + k.content_hash;
    match k.symbol_name {
        Some(s) => base + ":"@ + s,
        None => base,
    }
}

/// The first method, from position `i` of `all_methods` on, whose name is `s`.
pub open spec fn method_named_from(s: Seq<char>, i: int) -> Option<LspMethod>
    decreases 16 - i,
{
    if i < 0 || i >= 16 {
        None
    } else if method_name(all_methods()[i]) == s {
        Some(all_methods()[i])
    } else {
        method_named_from(s, i + 1)
    }
}

/// The method whose protocol name is `s`, if any.
pub open spec fn method_named(s: Seq<char>) -> Option<LspMethod> {
    method_named_from(s, 0)
}

/// The cache key a storage key denotes: the storage key is cut at its first four
/// colons; the second piece, with `_` read back as `/`, must name a method.
/// The modification time and position are not stored and come back as 0 and `None`.
pub open spec fn parse_storage_key(key: Seq<char>) -> Option<CacheKeyView> {
    let parts = splitn(key, 5, ":"@);
    if parts.len() < 4 {
        None
    } else {
        match method_named(replace(parts[1], "_"@, "/"@)) {
            None => None,
            Some(m) => Some(
                CacheKeyView {
                    workspace_relative_path: parts[2],
                    method: m,
                    content_hash: parts[3],
                    workspace_id: parts[0],
                    file_mtime: 0,
                    symbol_name: if parts.len() == 5 {
                        Some(parts[4])
                    } else {
                        None
                    },
                    position: None,
                },
            ),
        }
    }
}

pub open spec fn opt_key_view(k: Option<CacheKey>) -> Option<CacheKeyView> {
    match k {
        Some(k) => Some(k@),
        None => None,
    }
}

fn method_named_exec(s: &Vec<char>) -> (r: Option<LspMethod>)
    ensures
        r == method_named(s@),
{
    let mut i: usize = 0;
    while i < 16
        invariant
            i <= 16,
            method_named(s@) == method_named_from(s@, i as int),
        decreases 16 - i,
    {
        let m = LspMethod::from_index(i);
        let name = chars_of(m.as_str());
        if chars_eq(&name, s) {
            return Some(m);
        }
        i += 1;
    }
    None
}

impl CacheKey {
    /// Create a cache key string representation for storage
    pub fn to_storage_key(&self) -> (r: String)
        ensures
            r@ == storage_key(self@),
    {
        let colon = chars_of(":");
        let method = replace_exec(&chars_of(self.method.as_str()), &chars_of("/"), &chars_of("_"));
        let mut out = chars_of(self.workspace_id.as_str());
        append(&mut out, &colon);
        append(&mut out, &method);
        append(&mut out, &colon);
        append(&mut out, &chars_of(self.workspace_relative_path.as_str()));
        append(&mut out, &colon);
        append(&mut out, &chars_of(self.content_hash.as_str()));
        match &self.symbol_name {
            Some(symbol_name) => {
                append(&mut out, &colon);
                append(&mut out, &chars_of(symbol_name.as_str()));
            },
            None => {},
        }
        string_of(&out)
    }

    /// Parse a cache key from its storage representation
    pub fn from_storage_key(key: &str) -> (r: Option<Self>)
        ensures
            opt_key_view(r) == parse_storage_key(key@),
    {
        proof {
            reveal_strlit(":");
        }
        let parts = splitn_exec(&chars_of(key), 5, &chars_of(":"));
        if parts.len() < 4 {
            return None;
        }
        let method_str = replace_exec(&parts[1], &chars_of("_"), &chars_of("/"));
        let method = match method_named_exec(&method_str) {
            Some(m) => m,
            None => return None,
        };
        let symbol_name = if parts.len() == 5 {
            Some(string_of(&parts[4]))
        } else {
            None
        };
        Some(CacheKey {
            workspace_relative_path: string_of(&parts[2]),
            method,
            content_hash: string_of(&parts[3]),
            workspace_id: string_of(&parts[0]),
            file_mtime: 0,
            symbol_name,
            position: None,
        })
    }
}

// ---------------------------------------------------------------------------
// Building keys
// ---------------------------------------------------------------------------

/// The singleflight key of a request: `sf_`, the method's key name, the file's path and
/// the BLAKE3 digest of the parameters, joined by `:`.
pub open spec fn singleflight_key(m: LspMethod, path: Seq<char>, params: Seq<char>) -> Seq<char> {
    "sf_"@ + method_key_name(m) + ":"@ + path + ":"@ + blake3_hex_of(params)
}

/// A workspace's folder name, `unknown` where its path has none.
pub open spec fn folder_name(root: Seq<char>) -> Seq<char> {
    match path_file_name(root) {
        Some(n) => n,
        None => "unknown"@,
    }
}

/// A workspace's id: the first 8 hex digits of the BLAKE3 digest of `workspace_id:`
/// and its root, `_`, and its folder name.
pub open spec fn workspace_id_of(root: Seq<char>) -> Seq<char> {
    blake3_hex_of("workspace_id:"@ + root).take(8) + "_"@ + folder_name(root)
}

/// A language server's fingerprint: the BLAKE3 digest of its language, version and
/// workspace root, and of the workspace's head commit where it is a git repository.
pub open spec fn server_fingerprint(
    language: Seq<char>,
    server_version: Seq<char>,
    root: Seq<char>,
    head: Option<Seq<char>>,
) -> Seq<char> {
    let base = "server_fingerprint:"@ + language + ":"@ + server_version + ":"@ + root;
    blake3_hex_of(
        match head {
            Some(h) => base + ":"@ + h,
            None => base,
        },
    )
}

/// The low `k` bytes of a number, least significant first.
pub open spec fn le_digits(n: nat, k: nat) -> Seq<u8>
    decreases k,
{
    if k == 0 {
        seq![]
    } else {
        seq![(n % 256) as u8] + le_digits(n / 256, (k - 1) as nat)
    }
}

/// The memory representation of a `u64` in little-endian order (`u64::to_le_bytes`).
pub open spec fn le_bytes(n: u64) -> Seq<u8> {
    le_digits(n as nat, 8)
}

/// The bytes the fast content hash digests: `fast_cache_key:`, the method's name, the
/// relative path and the parameters, joined by `:`, then `:` and the modification time,
/// then `:` and the file's size where it is known.
pub open spec fn fast_hash_input(
    m: LspMethod,
    rel: Seq<char>,
    params: Seq<char>,
    mtime: u64,
    size: Option<u64>,
) -> Seq<u8> {
    let head = vstd::utf8::encode_utf8(
        "fast_cache_key:"@ + method_name(m) + ":"@ + rel + ":"@ + params + ":"@,
    ) + le_bytes(mtime);
    match size {
        Some(n) => head + vstd::utf8::encode_utf8(":"@) + le_bytes(n),
        None => head,
    }
}

/// The bytes the content hash digests: `cache_key:`, the method's name, the relative
/// path, the file's content and the parameters, joined by `:`, then `:` and the
/// modification time.
pub open spec fn content_hash_input(
    m: LspMethod,
    rel: Seq<char>,
    content: Seq<char>,
    params: Seq<char>,
    mtime: u64,
) -> Seq<u8> {
    vstd::utf8::encode_utf8(
        "cache_key:"@ + method_name(m) + ":"@ + rel + ":"@ + content + ":"@ + params + ":"@,
    ) + le_bytes(mtime)
}

/// A path relative to the workspace root, or the path itself where it is not under it.
pub open spec fn workspace_relative(file: Seq<char>, root: Seq<char>) -> Seq<char> {
    match path_relative_to(file, root) {
        Some(r) => r,
        None => file,
    }
}

/// The key of a request on a file, from what the file system gave for it.
pub open spec fn built_key(
    m: LspMethod,
    file: Seq<char>,
    root: Seq<char>,
    params: Seq<char>,
    mtime: u64,
    size: Option<u64>,
) -> CacheKeyView {
    let rel = workspace_relative(file, root);
    CacheKeyView {
        workspace_relative_path: rel,
        method: m,
        content_hash: blake3_bytes_hex(fast_hash_input(m, rel, params, mtime, size)),
        workspace_id: workspace_id_of(root),
        file_mtime: mtime,
        symbol_name: None,
        position: params_position(params),
    }
}

fn le_bytes_exec(n: u64) -> (r: Vec<u8>)
    ensures
        r@ == le_bytes(n),
{
    let mut out: Vec<u8> = Vec::new();
    let mut x: u64 = n;
    let mut i: usize = 0;
    while i < 8
        invariant
            i <= 8,
            out@ + le_digits(x as nat, (8 - i) as nat) == le_digits(n as nat, 8),
        decreases 8 - i,
    {
        let ghost before = out@;
        let ghost rest = le_digits((x / 256) as nat, (8 - i - 1) as nat);
        assert(le_digits(x as nat, (8 - i) as nat) == seq![(x % 256) as u8] + rest);
        out.push((x % 256) as u8);
        assert(before + (seq![(x % 256) as u8] + rest) =~= out@ + rest);
        x = x / 256;
        i += 1;
    }
    assert(le_digits(x as nat, 0) =~= Seq::<u8>::empty());
    assert(out@ + Seq::<u8>::empty() =~= out@);
    out
}

/// Appends the UTF-8 bytes of a text.
fn push_text(out: &mut Vec<u8>, text: &Vec<char>)
    ensures
        final(out)@ == old(out)@ + vstd::utf8::encode_utf8(text@),
{
    let s = string_of(text);
    let mut bytes = s.as_str().as_bytes_vec();
    out.append(&mut bytes);
}

/// The display text of a position: line and character, each counted from 1.
pub open spec fn position_text(line: u64, character: u64) -> Seq<char> {
    decimal((line + 1) as nat) + ":"@ + decimal((character + 1) as nat)
}

/// A missing or non-numeric coordinate counts as 0.
pub open spec fn coordinate(c: Option<u64>) -> u64 {
    match c {
        Some(v) => v,
        None => 0,
    }
}

/// Format a position for display, counting lines and characters from 1
pub fn format_position(line: u64, character: u64) -> (r: String)
    requires
        line < u64::MAX,
        character < u64::MAX,
    ensures
        r@ == position_text(line, character),
{
    let mut out = decimal_exec(line + 1);
    append(&mut out, &chars_of(":"));
    append(&mut out, &decimal_exec(character + 1));
    string_of(&out)
}

/// The position that request parameters name, for display: where they are JSON with a
/// `position`, its line and character counted from 1 (a missing or non-numeric one
/// counting as 0); none where a coordinate is `u64::MAX`, which has no successor.
pub open spec fn params_position(params: Seq<char>) -> Option<Seq<char>> {
    match json_position(params) {
        Some((l, c)) => if coordinate(l) < u64::MAX && coordinate(c) < u64::MAX {
            Some(position_text(coordinate(l), coordinate(c)))
        } else {
            None
        },
        None => None,
    }
}

/// Extract position information from LSP params for display
pub fn extract_position_from_params(params: &str) -> (r: Option<String>)
    ensures
        opt_view(r) == params_position(params@),
{
    match json_position_fields(params) {
        Some((l, c)) => {
            let line = match l {
                Some(v) => v,
                None => 0,
            };
            let character = match c {
                Some(v) => v,
                None => 0,
            };
            if line < u64::MAX && character < u64::MAX {
                Some(format_position(line, character))
            } else {
                None
            }
        },
        None => None,
    }
}

/// Whether a key built at a modification time is still valid: the file must exist
/// and keep that modification time; unknown where the time could not be read.
pub open spec fn key_validity(key_mtime: u64, file_exists: bool, current_mtime: Option<u64>) -> Option<
    bool,
> {
    if !file_exists {
        Some(false)
    } else {
        match current_mtime {
            Some(t) => Some(t == key_mtime),
            None => None,
        }
    }
}

/// A key is valid for the file as it was when the key was built, and no longer once
/// the file's modification time changed or the file is gone.
pub proof fn law_key_valid_until_modified(
    m: LspMethod,
    file: Seq<char>,
    root: Seq<char>,
    params: Seq<char>,
    mtime: u64,
    size: Option<u64>,
    later_mtime: u64,
)
    requires
        later_mtime != mtime,
    ensures
        key_validity(built_key(m, file, root, params, mtime, size).file_mtime, true, Some(mtime))
            == Some(true),
        key_validity(built_key(m, file, root, params, mtime, size).file_mtime, true, Some(later_mtime))
            == Some(false),
        key_validity(built_key(m, file, root, params, mtime, size).file_mtime, false, Some(mtime))
            == Some(false),
{
}

/// Cache key builder
pub struct KeyBuilder {}

impl KeyBuilder {
    /// Create a new key builder
    pub fn new() -> (r: Self) {
        KeyBuilder {  }
    }

    /// Build a synchronous singleflight key for immediate deduplication, from the file's
    /// canonical path (or its path as given, where it cannot be canonicalized)
    pub fn build_singleflight_key(&self, method: LspMethod, file_path: &str, params: &str) -> (r:
        String)
        ensures
            r@ == singleflight_key(method, file_path@, params@),
    {
        let colon = chars_of(":");
        let mut out = chars_of("sf_");
        append(&mut out, &replace_exec(&chars_of(method.as_str()), &chars_of("/"), &chars_of("_")));
        append(&mut out, &colon);
        append(&mut out, &chars_of(file_path));
        append(&mut out, &colon);
        append(&mut out, &chars_of(blake3_hex(params).as_str()));
        string_of(&out)
    }

    /// Generate server fingerprint for LSP server state, given the head commit of the
    /// workspace where it is a git repository
    pub fn generate_server_fingerprint(
        &self,
        language: &str,
        server_version: &str,
        workspace_root: &str,
        head_commit: Option<&str>,
    ) -> (r: String)
        ensures
            r@ == server_fingerprint(
                language@,
                server_version@,
                workspace_root@,
                match head_commit {
                    Some(h) => Some(h@),
                    None => None,
                },
            ),
    {
        let colon = chars_of(":");
        let mut text = chars_of("server_fingerprint:");
        append(&mut text, &chars_of(language));
        append(&mut text, &colon);
        append(&mut text, &chars_of(server_version));
        append(&mut text, &colon);
        append(&mut text, &chars_of(workspace_root));
        match head_commit {
            Some(h) => {
                append(&mut text, &colon);
                append(&mut text, &chars_of(h));
            },
            None => {},
        }
        blake3_hex(string_of(&text).as_str())
    }

    /// Generate workspace ID from workspace root path
    pub fn generate_workspace_id(&self, workspace_root: &str) -> (r: String)
        ensures
            r@ == workspace_id_of(workspace_root@),
    {
        let mut text = chars_of("workspace_id:");
        append(&mut text, &chars_of(workspace_root));
        let hash = chars_of(blake3_hex(string_of(&text).as_str()).as_str());
        let mut out = slice(&hash, 0, 8);
        append(&mut out, &chars_of("_"));
        match file_name_of(workspace_root) {
            Some(name) => append(&mut out, &chars_of(name.as_str())),
            None => append(&mut out, &chars_of("unknown")),
        }
        string_of(&out)
    }

    /// Generate fast content hash (without reading file content), given the file's size
    /// where its metadata could be read
    pub fn generate_fast_content_hash(
        &self,
        method: LspMethod,
        workspace_relative_path: &str,
        params: &str,
        file_mtime: u64,
        file_size: Option<u64>,
    ) -> (r: String)
        ensures
            r@ == blake3_bytes_hex(
                fast_hash_input(method, workspace_relative_path@, params@, file_mtime, file_size),
            ),
    {
        let colon = chars_of(":");
        let mut text = chars_of("fast_cache_key:");
        append(&mut text, &chars_of(method.as_str()));
        append(&mut text, &colon);
        append(&mut text, &chars_of(workspace_relative_path));
        append(&mut text, &colon);
        append(&mut text, &chars_of(params));
        append(&mut text, &colon);
        let mut bytes: Vec<u8> = Vec::new();
        push_text(&mut bytes, &text);
        let mut mtime = le_bytes_exec(file_mtime);
        bytes.append(&mut mtime);
        match file_size {
            Some(n) => {
                push_text(&mut bytes, &colon);
                let mut size = le_bytes_exec(n);
                bytes.append(&mut size);
            },
            None => {},
        }
        proof {
            assert(Seq::<u8>::empty() + vstd::utf8::encode_utf8(text@) =~= vstd::utf8::encode_utf8(
                text@,
            ));
        }
        blake3_hex_bytes(bytes.as_slice())
    }

    /// Generate content-addressed hash (with file content)
    pub fn generate_content_hash(
        &self,
        method: LspMethod,
        workspace_relative_path: &str,
        file_content: &str,
        params: &str,
        file_mtime: u64,
    ) -> (r: String)
        ensures
            r@ == blake3_bytes_hex(
                content_hash_input(
                    method,
                    workspace_relative_path@,
                    file_content@,
                    params@,
                    file_mtime,
                ),
            ),
    {
        let colon = chars_of(":");
        let mut text = chars_of("cache_key:");
        append(&mut text, &chars_of(method.as_str()));
        append(&mut text, &colon);
        append(&mut text, &chars_of(workspace_relative_path));
        append(&mut text, &colon);
        append(&mut text, &chars_of(file_content));
        append(&mut text, &colon);
        append(&mut text, &chars_of(params));
        append(&mut text, &colon);
        let mut bytes: Vec<u8> = Vec::new();
        push_text(&mut bytes, &text);
        let mut mtime = le_bytes_exec(file_mtime);
        bytes.append(&mut mtime);
        proof {
            assert(Seq::<u8>::empty() + vstd::utf8::encode_utf8(text@) =~= vstd::utf8::encode_utf8(
                text@,
            ));
        }
        blake3_hex_bytes(bytes.as_slice())
    }

    /// Calculate workspace-relative path (the path itself where it is not under the root)
    pub fn get_workspace_relative_path(&self, file_path: &str, workspace_root: &str) -> (r:
        String)
        ensures
            r@ == workspace_relative(file_path@, workspace_root@),
    {
        match strip_path_prefix(file_path, workspace_root) {
            Some(rel) => rel,
            None => string_of(&chars_of(file_path)),
        }
    }

    /// Build a content-addressed cache key for a file, from its canonical path (or the
    /// path as given), its modification time, its workspace root and its size where known
    pub fn build_key(
        &self,
        method: LspMethod,
        file_path: &str,
        workspace_root: &str,
        params: &str,
        file_mtime: u64,
        file_size: Option<u64>,
    ) -> (r: CacheKey)
        ensures
            r@ == built_key(
                method,
                file_path@,
                workspace_root@,
                params@,
                file_mtime,
                file_size,
            ),
    {
        let workspace_relative_path = self.get_workspace_relative_path(file_path, workspace_root);
        let content_hash = self.generate_fast_content_hash(
            method,
            workspace_relative_path.as_str(),
            params,
            file_mtime,
            file_size,
        );
        let workspace_id = self.generate_workspace_id(workspace_root);
        let position = extract_position_from_params(params);
        CacheKey {
            workspace_relative_path,
            method,
            content_hash,
            workspace_id,
            file_mtime,
            symbol_name: None,
            position,
        }
    }

    /// Check if a cache key is still valid (not stale): the file must exist and keep the
    /// modification time the key was built with. `None` where the file exists but its
    /// modification time could not be read.
    pub fn is_key_valid(&self, key: &CacheKey, file_exists: bool, current_mtime: Option<u64>) -> (r:
        Option<bool>)
        ensures
            r == key_validity(key.file_mtime, file_exists, current_mtime),
    {
        if !file_exists {
            return Some(false);
        }
        match current_mtime {
            Some(t) => Some(t == key.file_mtime),
            None => None,
        }
    }
}

impl Default for KeyBuilder {
    fn default() -> (r: Self) {
        Self::new()
    }
}

// ---------------------------------------------------------------------------
// Finding a workspace root by its markers
// ---------------------------------------------------------------------------

/// The files whose presence marks a directory as a workspace root, in the order they
/// are looked for.
pub open spec fn workspace_markers() -> Seq<Seq<char>> {
    seq![
        "Cargo.toml"@,
        "package.json"@,
        "go.mod"@,
        "pyproject.toml"@,
        "setup.py"@,
        "requirements.txt"@,
        "tsconfig.json"@,
        ".git"@,
        "pom.xml"@,
        "build.gradle"@,
        "CMakeLists.txt"@,
    ]
}

fn workspace_marker(i: usize) -> (r: &'static str)
    requires
        i < 11,
    ensures
        r@ == workspace_markers()[i as int],
{
    if i == 0 { "Cargo.toml" }
    else if i == 1 { "package.json" }
    else if i == 2 { "go.mod" }
    else if i == 3 { "pyproject.toml" }
    else if i == 4 { "setup.py" }
    else if i == 5 { "requirements.txt" }
    else if i == 6 { "tsconfig.json" }
    else if i == 7 { ".git" }
    else if i == 8 { "pom.xml" }
    else if i == 9 { "build.gradle" }
    else { "CMakeLists.txt" }
}

/// The search for a workspace root: the directory being looked at (none once the
/// search went past the file system's root) and the marker looked for next.
pub struct RootSearch {
    pub dir: Option<String>,
    pub marker: usize,
}

/// The directory a search starts in: a file's parent directory (the file itself where
/// it has none), or the directory itself.
pub open spec fn search_start(path: Seq<char>, is_file: bool) -> Seq<char> {
    if is_file {
        match path_parent(path) {
            Some(p) => p,
            None => path,
        }
    } else {
        path
    }
}

impl RootSearch {
    pub open spec fn spec_dir(&self) -> Option<Seq<char>> {
        match self.dir {
            Some(d) => Some(d@),
            None => None,
        }
    }

    /// Start looking for the workspace root of a path
    pub fn start(path: &str, is_file: bool) -> (r: Self)
        ensures
            r.spec_dir() == Some(search_start(path@, is_file)),
            r.marker == 0,
    {
        let dir = if is_file {
            match parent_of(path) {
                Some(p) => p,
                None => string_of(&chars_of(path)),
            }
        } else {
            string_of(&chars_of(path))
        };
        RootSearch { dir: Some(dir), marker: 0 }
    }

    /// The path whose existence is to be checked next: the next marker in the current
    /// directory; none once the search is over
    pub fn probe(&self) -> (r: Option<String>)
        requires
            self.marker < 11,
        ensures
            match self.spec_dir() {
                Some(d) => r matches Some(p) && p@ == path_join(d, workspace_markers()[self.marker as int]),
                None => r is None,
            },
    {
        match &self.dir {
            Some(d) => Some(join_path(d.as_str(), workspace_marker(self.marker))),
            None => None,
        }
    }

    /// Takes in whether the probed path exists: where it does, the current directory is
    /// the workspace root; else the next marker is looked for, and after the last one
    /// the parent directory
    pub fn advance(&mut self, exists: bool) -> (r: Option<String>)
        requires
            old(self).marker < 11,
            old(self).dir is Some,
        ensures
            final(self).marker < 11,
            exists ==> opt_view(r) == old(self).spec_dir() && *final(self) == *old(self),
            !exists ==> r is None && if old(self).marker < 10 {
                final(self).spec_dir() == old(self).spec_dir() && final(self).marker == old(
                    self,
                ).marker + 1
            } else {
                final(self).spec_dir() == path_parent(old(self).spec_dir().unwrap())
                    && final(self).marker == 0
            },
    {
        if exists {
            return match &self.dir {
                Some(d) => Some(string_of(&chars_of(d.as_str()))),
                None => None,
            };
        }
        if self.marker < 10 {
            self.marker = self.marker + 1;
        } else {
            let next = match &self.dir {
                Some(d) => parent_of(d.as_str()),
                None => None,
            };
            self.dir = next;
            self.marker = 0;
        }
        None
    }
}

/// Whether a search that looks in directory `d`, from marker `k` on, finds the root
/// there: one of the paths it probes in `d` (see `probe`) is among the existing paths
/// `fs`; `advance` then gives `d`.
pub open spec fn found_in_dir(d: Seq<char>, fs: Set<Seq<char>>, k: int) -> bool
    decreases 11 - k,
{
    if k < 0 || k >= 11 {
        false
    } else {
        fs.contains(path_join(d, workspace_markers()[k])) || found_in_dir(d, fs, k + 1)
    }
}

// ---------------------------------------------------------------------------
// Laws
// ---------------------------------------------------------------------------

proof fn lemma_method_name_chars(m: LspMethod)
    ensures
        !has_char(method_name(m), ':'),
        !has_char(method_name(m), '_'),
{
    reveal_strlit("textDocument/definition");
    reveal_strlit("textDocument/references");
    reveal_strlit("textDocument/hover");
    reveal_strlit("textDocument/documentSymbol");
    reveal_strlit("workspace/symbol");
    reveal_strlit("textDocument/typeDefinition");
    reveal_strlit("textDocument/implementation");
    reveal_strlit("textDocument/prepareCallHierarchy");
    reveal_strlit("textDocument/signatureHelp");
    reveal_strlit("textDocument/completion");
    reveal_strlit("textDocument/codeAction");
    reveal_strlit("textDocument/rename");
    reveal_strlit("textDocument/foldingRange");
    reveal_strlit("textDocument/selectionRange");
    reveal_strlit("textDocument/semanticTokens/full");
    reveal_strlit("textDocument/inlayHint");
    let n = method_name(m);
    assert(forall|i: int| 0 <= i < n.len() ==> n[i] != ':' && n[i] != '_');
}

proof fn lemma_method_named(m: LspMethod)
    ensures
        method_named(method_name(m)) == Some(m),
{
    reveal_strlit("textDocument/definition");
    reveal_strlit("textDocument/references");
    reveal_strlit("textDocument/hover");
    reveal_strlit("textDocument/documentSymbol");
    reveal_strlit("workspace/symbol");
    reveal_strlit("textDocument/typeDefinition");
    reveal_strlit("textDocument/implementation");
    reveal_strlit("textDocument/prepareCallHierarchy");
    reveal_strlit("textDocument/signatureHelp");
    reveal_strlit("textDocument/completion");
    reveal_strlit("textDocument/codeAction");
    reveal_strlit("textDocument/rename");
    reveal_strlit("textDocument/foldingRange");
    reveal_strlit("textDocument/selectionRange");
    reveal_strlit("textDocument/semanticTokens/full");
    reveal_strlit("textDocument/inlayHint");
    assert forall|a: LspMethod, b: LspMethod| method_name(a) == method_name(b) implies a == b by {
        let (x, y) = (method_name(a), method_name(b));
        assert(x.len() == y.len());
        assert(x[13] == y[13]);
        assert(x[15] == y[15]);
    }
    reveal_with_fuel(method_named_from, 17);
}

/// A key whose workspace id, path and content hash hold no `:` comes back from its
/// storage key; its modification time and position, which are not stored, come back as
/// 0 and `None`.
pub proof fn law_storage_key_round_trip(k: CacheKeyView)
    requires
        !has_char(k.workspace_id, ':'),
        !has_char(k.workspace_relative_path, ':'),
        !has_char(k.content_hash, ':'),
    ensures
        parse_storage_key(storage_key(k)) == Some(
            CacheKeyView { file_mtime: 0, position: None, ..k },
        ),
{
    reveal_strlit(":");
    reveal_strlit("/");
    reveal_strlit("_");
    assert(":"@ =~= seq![':']);
    assert("/"@ =~= seq!['/']);
    assert("_"@ =~= seq!['_']);
    let name = method_name(k.method);
    lemma_method_name_chars(k.method);
    lemma_method_named(k.method);
    lemma_replace_char(name, '/', '_');
    let mk = map_char(name, '/', '_');
    lemma_replace_char(mk, '_', '/');
    assert forall|i: int| 0 <= i < name.len() implies name[i] != '_' && name[i] != ':' by {}
    assert(map_char(mk, '_', '/') =~= name);
    assert(!has_char(mk, ':'));
    assert(method_key_name(k.method) == mk);
    let c = seq![':'];
    let (ws, path, hash) = (k.workspace_id, k.workspace_relative_path, k.content_hash);
    let last = match k.symbol_name {
        Some(sym) => hash + c + sym,
        None => hash,
    };
    let key = storage_key(k);
    assert(key =~= ws + c + (mk + c + (path + c + last)));
    lemma_splitn_step(ws, ':', mk + c + (path + c + last), 5);
    lemma_splitn_step(mk, ':', path + c + last, 4);
    lemma_splitn_step(path, ':', last, 3);
    match k.symbol_name {
        Some(sym) => {
            lemma_splitn_step(hash, ':', sym, 2);
            assert(splitn(sym, 1, c) == seq![sym]);
        },
        None => {
            lemma_splitn_none(hash, ':', 2);
        },
    }
    let parts = splitn(key, 5, c);
    assert(parts[0] == ws && parts[1] == mk && parts[2] == path && parts[3] == hash);
}

/// A storage key that does not cut into at least four `:`-separated pieces, or whose
/// second piece (with `_` read as `/`) names no method, denotes no cache key.
pub proof fn law_storage_key_rejected(key: Seq<char>)
    ensures
        splitn(key, 5, ":"@).len() < 4 ==> parse_storage_key(key) is None,
        splitn(key, 5, ":"@).len() >= 4 && method_named(replace(splitn(key, 5, ":"@)[1], "_"@, "/"@))
            is None ==> parse_storage_key(key) is None,
{
}

/// Requests for different methods never share a singleflight key: the key names its
/// method.
pub proof fn law_singleflight_key_method(
    m1: LspMethod,
    path1: Seq<char>,
    params1: Seq<char>,
    m2: LspMethod,
    path2: Seq<char>,
    params2: Seq<char>,
)
    requires
        singleflight_key(m1, path1, params1) == singleflight_key(m2, path2, params2),
    ensures
        m1 == m2,
{
    reveal_strlit("sf_");
    reveal_strlit(":");
    reveal_strlit("/");
    reveal_strlit("_");
    assert("/"@ =~= seq!['/']);
    assert("_"@ =~= seq!['_']);
    let (n1, n2) = (method_name(m1), method_name(m2));
    lemma_method_name_chars(m1);
    lemma_method_name_chars(m2);
    lemma_replace_char(n1, '/', '_');
    lemma_replace_char(n2, '/', '_');
    let (k1, k2) = (map_char(n1, '/', '_'), map_char(n2, '/', '_'));
    assert(method_key_name(m1) == k1 && method_key_name(m2) == k2);
    assert forall|i: int| 0 <= i < n1.len() implies n1[i] != '_' && n1[i] != ':' by {}
    assert forall|i: int| 0 <= i < n2.len() implies n2[i] != '_' && n2[i] != ':' by {}
    let key = singleflight_key(m1, path1, params1);
    let r1 = path1 + ":"@ + blake3_hex_of(params1);
    let r2 = path2 + ":"@ + blake3_hex_of(params2);
    assert(key =~= "sf_"@ + k1 + seq![':'] + r1);
    assert(key =~= "sf_"@ + k2 + seq![':'] + r2);
    if k1.len() < k2.len() {
        assert(key[3 + k1.len() as int] == ':');
        assert(key[3 + k1.len() as int] == k2[k1.len() as int]);
        assert(false);
    }
    if k2.len() < k1.len() {
        assert(key[3 + k2.len() as int] == ':');
        assert(key[3 + k2.len() as int] == k1[k2.len() as int]);
        assert(false);
    }
    assert(k1 =~= key.subrange(3, 3 + k1.len() as int));
    assert(k2 =~= key.subrange(3, 3 + k2.len() as int));
    assert(map_char(k1, '_', '/') =~= n1);
    assert(map_char(k2, '_', '/') =~= n2);
    lemma_method_named(m1);
    lemma_method_named(m2);
}

/// A directory is a workspace root exactly when it holds one of `Cargo.toml`,
/// `package.json`, `go.mod`, `pyproject.toml`, `setup.py`, `requirements.txt`,
/// `tsconfig.json`, `.git`, `pom.xml`, `build.gradle` or `CMakeLists.txt`: a search
/// looking in it from its first marker on finds it then, and only then.
pub proof fn law_workspace_root_markers(d: Seq<char>, fs: Set<Seq<char>>)
    ensures
        found_in_dir(d, fs, 0) <==> exists|name: Seq<char>|
            seq!["Cargo.toml"@, "package.json"@, "go.mod"@, "pyproject.toml"@, "setup.py"@, "requirements.txt"@, "tsconfig.json"@, ".git"@, "pom.xml"@, "build.gradle"@, "CMakeLists.txt"@].contains(name) && #[trigger] fs.contains(path_join(d, name)),
{
    reveal_with_fuel(found_in_dir, 12);
    let names = seq!["Cargo.toml"@, "package.json"@, "go.mod"@, "pyproject.toml"@, "setup.py"@, "requirements.txt"@, "tsconfig.json"@, ".git"@, "pom.xml"@, "build.gradle"@, "CMakeLists.txt"@];
    let ms = workspace_markers();
    assert(names =~= ms);
    if found_in_dir(d, fs, 0) {
        let k = choose|k: int| 0 <= k < 11 && fs.contains(path_join(d, ms[k]));
        assert(names.contains(ms[k]));
    }
    if exists|name: Seq<char>| names.contains(name) && #[trigger] fs.contains(path_join(d, name)) {
        let name = choose|name: Seq<char>| names.contains(name) && #[trigger] fs.contains(
            path_join(d, name),
        );
        let k = choose|k: int| 0 <= k < names.len() && names[k] == name;
        assert(fs.contains(path_join(d, ms[k])));
    }
}

} // verus!
