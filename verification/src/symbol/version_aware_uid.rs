//! Version-Aware UID Generation
//!
//! Deterministic identifiers for symbols that are the same for storage and for queries.
//!
//! ## UID Format
//! `"relative/path:content_hash:symbol_name:line_number"`
//!
//! ## Examples
//! - `"src/accounting/billing.rs:7f3a9c2d:calculate_total:42"`
//! - `"lib/utils/helpers.rs:a1b2c3d4:format_currency:128"`
//!
//! Different content gives a different hash (branch isolation, edit detection), the
//! line number keeps symbols apart, and relative paths work across clones.
use vstd::prelude::*;
use crate::text::{
    append, chars_of, decimal, decimal_exec, is_ascii_hexdigit, lemma_decimal,
    lemma_parse_decimal, lemma_rfind_char_below, parse_u32, parse_u32_exec, rfind_char,
    rfind_char_exec, slice, starts_with, string_of, has_char, has_prefix, split, split_exec,
    seqs_view, lemma_split_step, lemma_split_none,
};
use crate::external::{
    blake3_hex, blake3_hex_of, is_lower_hex, path_relative_to, strip_path_prefix,
};
use crate::symbol::dependency_path::{classified_path, classify_absolute_path, GoDep};

verus! {

broadcast use vstd::string::group_string_axioms;

/// What the file system and the environment say of a file and its workspace: both paths
/// canonicalized (each as given where that is not possible), and the Go locations
/// that dependency paths are classified by.
#[derive(Debug, Clone)]
pub struct PathResolution {
    pub canonical_file: String,
    pub canonical_workspace: String,
    pub go: GoDep,
}

impl PathResolution {
    pub fn new(canonical_file: String, canonical_workspace: String, go: GoDep) -> (r: Self)
        ensures
            r.canonical_file == canonical_file,
            r.canonical_workspace == canonical_workspace,
            r.go == go,
    {
        PathResolution { canonical_file, canonical_workspace, go }
    }
}

// ---------------------------------------------------------------------------
// Model
// ---------------------------------------------------------------------------

pub open spec fn is_separator(c: char) -> bool {
    c == '/' || c == '\\'
}

/// The remainder of a canonical file path after the canonical workspace path, without
/// one leading separator, when the text of one starts with the other at a component
/// boundary (the workspace text ends with a separator, or a separator follows it) and
/// something remains.
pub open spec fn text_relative(file: Seq<char>, workspace: Seq<char>) -> Option<Seq<char>> {
    if starts_with(file, workspace) {
        let rest = file.skip(workspace.len() as int);
        let at_boundary = (workspace.len() > 0 && is_separator(workspace.last())) || (rest.len()
            > 0 && is_separator(rest[0]));
        let rel = if rest.len() > 0 && is_separator(rest[0]) {
            rest.drop_first()
        } else {
            rest
        };
        if at_boundary && rel.len() > 0 {
            Some(rel)
        } else {
            None
        }
    } else {
        None
    }
}

/// The path of a file as it appears in UIDs: relative to the workspace where it lies in
/// it, else its `/dep/...` path, else `EXTERNAL:` and the path as given.
pub open spec fn workspace_relative_path(
    file: Seq<char>,
    workspace: Seq<char>,
    res: PathResolution,
) -> Seq<char> {
    let cfile = res.canonical_file@;
    let cws = res.canonical_workspace@;
    match path_relative_to(cfile, cws) {
        Some(rel) => rel,
        None => match path_relative_to(file, workspace) {
            Some(rel) => rel,
            None => match text_relative(cfile, cws) {
                Some(rel) => rel,
                None => match classified_path(cfile, res.go) {
                    Some(dep) => dep,
                    None => "EXTERNAL:"@ + file,
                },
            },
        },
    }
}

/// The hash of a file's content in its UIDs: the first 8 hex digits of its BLAKE3
/// digest, or `00000000` for an empty file.
pub open spec fn content_hash(content: Seq<char>) -> Seq<char> {
    if content.len() == 0 {
        "00000000"@
    } else {
        blake3_hex_of(content).take(8)
    }
}

/// `path:hash:symbol:line`
pub open spec fn version_uid(
    path: Seq<char>,
    hash: Seq<char>,
    symbol: Seq<char>,
    line: u32,
) -> Seq<char> {
    path + ":"@ + hash + ":"@ + symbol + ":"@ + decimal(line as nat)
}

/// What `generate_version_aware_uid` returns.
pub open spec fn generated_version_uid(
    workspace: Seq<char>,
    file: Seq<char>,
    content: Seq<char>,
    symbol: Seq<char>,
    line: u32,
    res: PathResolution,
) -> Result<Seq<char>, Seq<char>> {
    if symbol.len() == 0 {
        Err("Symbol name cannot be empty"@)
    } else if line == 0 {
        Err("Line number must be greater than 0"@)
    } else {
        Ok(
            version_uid(
                workspace_relative_path(file, workspace, res),
                content_hash(content),
                symbol,
                line,
            ),
        )
    }
}

/// The prefix of the path of a file outside the workspace.
pub open spec fn external_prefix() -> Seq<char> {
    "EXTERNAL:"@
}

/// A UID cut into its `EXTERNAL:` prefix, where it has one and what follows it splits at
/// `:` into four parts, and the `:`-separated parts of the rest; otherwise no prefix and
/// the parts of the whole UID (so a plain path may be `EXTERNAL` itself).
pub open spec fn uid_parts(uid: Seq<char>) -> (Seq<char>, Seq<Seq<char>>) {
    if starts_with(uid, external_prefix()) && split(uid.skip(9), ":"@).len() == 4 {
        (external_prefix(), split(uid.skip(9), ":"@))
    } else {
        (Seq::empty(), split(uid, ":"@))
    }
}

/// The four fields of a UID `path:hash:symbol:line`: the UID, after an optional
/// `EXTERNAL:` prefix that stays part of the path, must split at `:` into exactly four
/// parts.
pub open spec fn uid_fields(uid: Seq<char>) -> Option<(Seq<char>, Seq<char>, Seq<char>, Seq<char>)> {
    let (prefix, parts) = uid_parts(uid);
    if parts.len() == 4 {
        Some((prefix + parts[0], parts[1], parts[2], parts[3]))
    } else {
        None
    }
}

/// Exactly 8 hexadecimal digits.
pub open spec fn is_content_hash(h: Seq<char>) -> bool {
    h.len() == 8 && forall|i: int| 0 <= i < 8 ==> is_ascii_hexdigit(#[trigger] h[i])
}

/// A well-formed UID: after an optional `EXTERNAL:` prefix, exactly four `:`-separated
/// parts: a non-empty path, an 8-digit hex hash, a non-empty symbol and a positive line
/// number.
pub open spec fn version_uid_is_valid(uid: Seq<char>) -> bool {
    let parts = uid_parts(uid).1;
    &&& parts.len() == 4
    &&& parts[0].len() > 0
    &&& is_content_hash(parts[1])
    &&& parts[2].len() > 0
    &&& parse_u32(parts[3]) matches Some(n) && n > 0
}

/// What `parse_version_aware_uid` returns.
pub open spec fn parsed_version_uid(uid: Seq<char>) -> Result<
    (Seq<char>, Seq<char>, Seq<char>, u32),
    Seq<char>,
> {
    if version_uid_is_valid(uid) {
        let (path, hash, symbol, line) = uid_fields(uid)->0;
        Ok((path, hash, symbol, parse_u32(line)->0))
    } else {
        Err("Invalid UID format: "@ + uid)
    }
}

pub open spec fn text_ok(r: Result<String, String>) -> Result<Seq<char>, Seq<char>> {
    match r {
        Ok(s) => Ok(s@),
        Err(e) => Err(e@),
    }
}

// ---------------------------------------------------------------------------
// Implementation
// ---------------------------------------------------------------------------

/// Generate a version-aware UID for a symbol: the workspace-relative file path, the
/// content hash (first 8 chars of the BLAKE3 hash), the symbol name and the line.
pub fn generate_version_aware_uid(
    workspace_root: &str,
    file_path: &str,
    file_content: &str,
    symbol_name: &str,
    line_number: u32,
    resolution: &PathResolution,
) -> (r: Result<String, String>)
    ensures
        text_ok(r) == generated_version_uid(
            workspace_root@,
            file_path@,
            file_content@,
            symbol_name@,
            line_number,
            *resolution,
        ),
        r is Ok ==> is_content_hash(content_hash(file_content@)),
{
    // Input validation
    if chars_of(symbol_name).len() == 0 {
        return Err("Symbol name cannot be empty".to_string());
    }
    if line_number == 0 {
        return Err("Line number must be greater than 0".to_string());
    }
    // Files outside the workspace get a /dep/... path, or EXTERNAL: as a last resort.
    let relative_path = match get_workspace_relative_path(file_path, workspace_root, resolution) {
        Ok(p) => p,
        Err(e) => return Err(e),
    };
    let content_hash = match blake3_hash_file_content(file_content) {
        Ok(h) => h,
        Err(e) => return Err(e),
    };
    let colon = chars_of(":");
    let mut uid = chars_of(relative_path.as_str());
    append(&mut uid, &colon);
    append(&mut uid, &chars_of(content_hash.as_str()));
    append(&mut uid, &colon);
    append(&mut uid, &chars_of(symbol_name));
    append(&mut uid, &colon);
    append(&mut uid, &decimal_exec(line_number as u64));
    Ok(string_of(&uid))
}

/// Get the path of a file relative to a workspace.
///
/// A file outside the workspace gets its `/dep/...` path where it is a dependency
/// source, else its path as given with an `EXTERNAL:` prefix.
pub fn get_workspace_relative_path(
    file_path: &str,
    workspace_root: &str,
    resolution: &PathResolution,
) -> (r: Result<String, String>)
    ensures
        text_ok(r) == Ok::<Seq<char>, Seq<char>>(
            workspace_relative_path(file_path@, workspace_root@, *resolution),
        ),
{
    let canonical_file = resolution.canonical_file.as_str();
    let canonical_workspace = resolution.canonical_workspace.as_str();
    // Check if file is within workspace
    match strip_path_prefix(canonical_file, canonical_workspace) {
        Some(relative) => return Ok(relative),
        None => {},
    }
    // Canonicalization may have changed the roots (e.g. symlinks)
    match strip_path_prefix(file_path, workspace_root) {
        Some(relative) => return Ok(relative),
        None => {},
    }
    // Last resort: a textual prefix that ends at a path component
    let file_text = chars_of(canonical_file);
    let ws_text = chars_of(canonical_workspace);
    if has_prefix(&file_text, &ws_text) {
        let mut rel = slice(&file_text, ws_text.len(), file_text.len());
        let at_boundary = (ws_text.len() > 0 && (ws_text[ws_text.len() - 1] == '/'
            || ws_text[ws_text.len() - 1] == '\\')) || (rel.len() > 0 && (rel[0] == '/' || rel[0]
            == '\\'));
        if rel.len() > 0 && (rel[0] == '/' || rel[0] == '\\') {
            rel = slice(&rel, 1, rel.len());
        }
        if at_boundary && rel.len() > 0 {
            return Ok(string_of(&rel));
        }
    }
    // File is outside workspace: a /dep/* path where the ecosystem is known
    match classify_absolute_path(canonical_file, &resolution.go) {
        Some(dep_path) => return Ok(dep_path),
        None => {},
    }
    let mut external = chars_of("EXTERNAL:");
    append(&mut external, &chars_of(file_path));
    Ok(string_of(&external))
}

/// The first 8 characters of the hex BLAKE3 hash of file content (`00000000` when empty).
pub fn blake3_hash_file_content(content: &str) -> (r: Result<String, String>)
    ensures
        text_ok(r) == Ok::<Seq<char>, Seq<char>>(content_hash(content@)),
        is_content_hash(content_hash(content@)),
{
    if chars_of(content).len() == 0 {
        proof {
            reveal_strlit("00000000");
        }
        // A consistent hash for empty files
        return Ok("00000000".to_string());
    }
    let hash_hex = chars_of(blake3_hex(content).as_str());
    let short = slice(&hash_hex, 0, 8);
    assert(short@ =~= blake3_hex_of(content@).take(8));
    assert forall|i: int| 0 <= i < 8 implies is_ascii_hexdigit(#[trigger] short@[i]) by {
        assert(is_lower_hex(hash_hex@[i]));
    }
    Ok(string_of(&short))
}

/// The parts of a UID: its `EXTERNAL:` prefix, if any, and the rest split at `:`.
fn split_uid_parts(uid: &Vec<char>) -> (r: (Vec<char>, Vec<Vec<char>>))
    ensures
        (r.0@, seqs_view(r.1@)) == uid_parts(uid@),
{
    proof {
        reveal_strlit("EXTERNAL:");
        reveal_strlit(":");
    }
    let prefix = chars_of("EXTERNAL:");
    if has_prefix(uid, &prefix) {
        let rest = slice(uid, 9, uid.len());
        let parts = split_exec(&rest, &chars_of(":"));
        if parts.len() == 4 {
            return (prefix, parts);
        }
    }
    (Vec::new(), split_exec(uid, &chars_of(":")))
}

/// Validate a version-aware UID: `path:hash:symbol:line`, the path possibly after an
/// `EXTERNAL:` prefix.
pub fn validate_version_aware_uid(uid: &str) -> (r: bool)
    ensures
        r == version_uid_is_valid(uid@),
{
    let u = chars_of(uid);
    let (_prefix, parts) = split_uid_parts(&u);
    // Should have exactly 4 parts: path:hash:symbol:line
    if parts.len() != 4 {
        return false;
    }
    let ghost ps = seqs_view(parts@);
    assert(ps[0] == parts@[0]@ && ps[1] == parts@[1]@ && ps[2] == parts@[2]@ && ps[3] == parts@[3]@);
    // Path part should not be empty
    if parts[0].len() == 0 {
        return false;
    }
    // Hash part should be exactly 8 hex characters
    if parts[1].len() != 8 {
        return false;
    }
    let mut i: usize = 0;
    while i < 8
        invariant
            parts@.len() == 4,
            uid_parts(uid@).1 == seqs_view(parts@),
            parts@[1]@.len() == 8,
            i <= 8,
            forall|j: int| 0 <= j < i ==> is_ascii_hexdigit(#[trigger] parts@[1]@[j]),
        decreases 8 - i,
    {
        let c = parts[1][i];
        if !(('0' <= c && c <= '9') || ('a' <= c && c <= 'f') || ('A' <= c && c <= 'F')) {
            assert(!is_ascii_hexdigit(parts@[1]@[i as int]));
            return false;
        }
        i += 1;
    }
    // Symbol part should not be empty
    if parts[2].len() == 0 {
        return false;
    }
    // Line part should be a positive integer
    match parse_u32_exec(&parts[3]) {
        Some(line_num) => line_num > 0,
        None => false,
    }
}

/// Extract the components of a version-aware UID:
/// `(relative_path, content_hash, symbol_name, line_number)`.
pub fn parse_version_aware_uid(uid: &str) -> (r: Result<(String, String, String, u32), String>)
    ensures
        match r {
            Ok((p, h, s, l)) => parsed_version_uid(uid@) == Ok::<
                (Seq<char>, Seq<char>, Seq<char>, u32),
                Seq<char>,
            >((p@, h@, s@, l)),
            Err(e) => parsed_version_uid(uid@) == Err::<
                (Seq<char>, Seq<char>, Seq<char>, u32),
                Seq<char>,
            >(e@),
        },
{
    if !validate_version_aware_uid(uid) {
        let mut msg = chars_of("Invalid UID format: ");
        append(&mut msg, &chars_of(uid));
        return Err(string_of(&msg));
    }
    let u = chars_of(uid);
    let (prefix, parts) = split_uid_parts(&u);
    let ghost ps = seqs_view(parts@);
    assert(ps[0] == parts@[0]@ && ps[1] == parts@[1]@ && ps[2] == parts@[2]@ && ps[3] == parts@[3]@);
    let mut path = prefix;
    append(&mut path, &parts[0]);
    match parse_u32_exec(&parts[3]) {
        Some(n) => Ok((string_of(&path), string_of(&parts[1]), string_of(&parts[2]), n)),
        None => Err(string_of(&parts[3])),
    }
}

// ---------------------------------------------------------------------------
// Laws
// ---------------------------------------------------------------------------

proof fn lemma_no_colon_in_hash(h: Seq<char>)
    requires
        is_content_hash(h),
    ensures
        !has_char(h, ':'),
{
    assert forall|i: int| 0 <= i < h.len() implies h[i] != ':' by {
        assert(is_ascii_hexdigit(h[i]));
    }
}

proof fn lemma_no_colon_in_decimal(n: nat)
    ensures
        !has_char(decimal(n), ':'),
{
    lemma_decimal(n);
    assert forall|i: int| 0 <= i < decimal(n).len() implies decimal(n)[i] != ':' by {
        assert(crate::text::is_ascii_digit(decimal(n)[i]));
    }
}

/// A path that a UID can carry: a non-empty path without `:`, or `EXTERNAL:` and a
/// non-empty path without `:`.
pub open spec fn is_uid_path(path: Seq<char>) -> bool {
    ||| (path.len() > 0 && !has_char(path, ':'))
    ||| (starts_with(path, external_prefix()) && path.len() > 9 && !has_char(path.skip(9), ':'))
}

proof fn lemma_split_three(hash: Seq<char>, symbol: Seq<char>, d: Seq<char>)
    requires
        !has_char(hash, ':'),
        !has_char(symbol, ':'),
        !has_char(d, ':'),
    ensures
        split(hash + ":"@ + symbol + ":"@ + d, ":"@).len() == 3,
{
    reveal_strlit(":");
    let c = seq![':'];
    assert(":"@ =~= c);
    let t3 = symbol + c + d;
    assert(hash + ":"@ + symbol + ":"@ + d =~= hash + c + t3);
    lemma_split_step(hash, ':', t3);
    lemma_split_step(symbol, ':', d);
    lemma_split_none(d, ':');
}

proof fn lemma_split_fields(p: Seq<char>, hash: Seq<char>, symbol: Seq<char>, d: Seq<char>)
    requires
        !has_char(p, ':'),
        !has_char(hash, ':'),
        !has_char(symbol, ':'),
        !has_char(d, ':'),
    ensures
        split(p + ":"@ + hash + ":"@ + symbol + ":"@ + d, ":"@) == seq![p, hash, symbol, d],
{
    reveal_strlit(":");
    let c = seq![':'];
    assert(":"@ =~= c);
    let t3 = symbol + c + d;
    let t2 = hash + c + t3;
    assert(p + ":"@ + hash + ":"@ + symbol + ":"@ + d =~= p + c + t2);
    lemma_split_step(p, ':', t2);
    lemma_split_step(hash, ':', t3);
    lemma_split_step(symbol, ':', d);
    lemma_split_none(d, ':');
    assert(seq![p] + (seq![hash] + (seq![symbol] + seq![d])) =~= seq![p, hash, symbol, d]);
}

/// A UID made of a path it can carry, a content hash, a non-empty symbol without `:` and a
/// positive line number is valid, and parsing gives those four parts back.
pub proof fn law_version_uid_round_trip(
    path: Seq<char>,
    hash: Seq<char>,
    symbol: Seq<char>,
    line: u32,
)
    requires
        is_uid_path(path),
        is_content_hash(hash),
        symbol.len() > 0,
        !has_char(symbol, ':'),
        line > 0,
    ensures
        version_uid_is_valid(version_uid(path, hash, symbol, line)),
        parsed_version_uid(version_uid(path, hash, symbol, line)) == Ok::<
            (Seq<char>, Seq<char>, Seq<char>, u32),
            Seq<char>,
        >((path, hash, symbol, line)),
{
    reveal_strlit(":");
    reveal_strlit("EXTERNAL:");
    reveal_strlit("EXTERNAL");
    let d = decimal(line as nat);
    lemma_no_colon_in_decimal(line as nat);
    lemma_no_colon_in_hash(hash);
    lemma_parse_decimal(line);
    let ext = external_prefix();
    let u = version_uid(path, hash, symbol, line);
    let tail = ":"@ + hash + ":"@ + symbol + ":"@ + d;
    assert(u =~= path + tail);
    assert(tail[0] == ':');
    if path.len() > 0 && !has_char(path, ':') {
        if starts_with(u, ext) {
            let k = path.len() as int;
            if k >= 9 {
                assert(u[8] == path[8]);
                assert(ext[8] == ':');
            } else {
                assert(u[k] == ':');
                if k < 8 {
                    assert(ext[k] == u[k]);
                } else {
                    // The path is `EXTERNAL`: what follows the prefix has three fields.
                    assert(u.skip(9) =~= hash + ":"@ + symbol + ":"@ + d);
                    lemma_split_three(hash, symbol, d);
                }
            }
        }
        assert(!(starts_with(u, ext) && split(u.skip(9), ":"@).len() == 4));
        lemma_split_fields(path, hash, symbol, d);
        assert(uid_parts(u).1 == seq![path, hash, symbol, d]);
        assert(Seq::<char>::empty() + path =~= path);
    } else {
        let p = path.skip(9);
        assert(path =~= ext + p);
        assert(u.take(9) =~= path.take(9));
        assert(starts_with(u, ext));
        assert(u.skip(9) =~= p + ":"@ + hash + ":"@ + symbol + ":"@ + d);
        lemma_split_fields(p, hash, symbol, d);
        assert(uid_parts(u).1 == seq![p, hash, symbol, d]);
    }
}

/// Two UIDs of one symbol in one file that differ in the file's content differ at most
/// in their hash field: path, symbol and line read back the same.
pub proof fn law_content_changes_only_hash(
    workspace: Seq<char>,
    file: Seq<char>,
    content1: Seq<char>,
    content2: Seq<char>,
    symbol: Seq<char>,
    line: u32,
    res: PathResolution,
)
    requires
        is_uid_path(workspace_relative_path(file, workspace, res)),
        is_content_hash(content_hash(content1)),
        is_content_hash(content_hash(content2)),
        symbol.len() > 0,
        !has_char(symbol, ':'),
        line > 0,
    ensures
        ({
            let p1 = parsed_version_uid(
                generated_version_uid(workspace, file, content1, symbol, line, res)->Ok_0,
            )->Ok_0;
            let p2 = parsed_version_uid(
                generated_version_uid(workspace, file, content2, symbol, line, res)->Ok_0,
            )->Ok_0;
            &&& p1.0 == p2.0
            &&& p1.1 == content_hash(content1)
            &&& p2.1 == content_hash(content2)
            &&& p1.2 == p2.2
            &&& p1.3 == p2.3
        }),
{
    let rel = workspace_relative_path(file, workspace, res);
    law_version_uid_round_trip(rel, content_hash(content1), symbol, line);
    law_version_uid_round_trip(rel, content_hash(content2), symbol, line);
}

} // verus!
