//! Calls into `std` and outside crates whose results the library takes as given.
//!
//! Each function here is trusted: Verus believes its contract and does not read
//! its body. The doc comment of each says what is claimed of the call it makes.
use vstd::prelude::*;
use crate::text::{all_ascii, ascii_lower};
use sha2::Digest;

verus! {

// ---------------------------------------------------------------------------
// std
// ---------------------------------------------------------------------------

/// What `str::to_lowercase` returns for a string (Unicode lowercase mapping).
pub uninterp spec fn lowercase(s: Seq<char>) -> Seq<char>;

/// Calls `str::to_lowercase`. The result is named `lowercase`; for an all-ASCII
/// input it is the character-wise ASCII lowercase, as the Unicode case mapping
/// that the documentation refers to maps `A`-`Z` to `a`-`z` and leaves every other
/// ASCII character unchanged.
#[verifier::external_body]
pub(crate) fn to_lowercase(s: &str) -> (r: String)
    ensures
        r@ == lowercase(s@),
        all_ascii(s@) ==> r@ == ascii_lower(s@),
{
    s.to_lowercase()
}

/// What `Path::strip_prefix` leaves of `path` once the leading components of `base` are
/// taken off, as text; `None` where `base` does not lead `path` component by component.
pub uninterp spec fn path_relative_to(path: Seq<char>, base: Seq<char>) -> Option<Seq<char>>;

/// Calls `Path::new(path).strip_prefix(base)` and turns the remainder into a `String`
/// (`to_string_lossy`, which is exact for a path made from a `str`). The result is
/// named `path_relative_to`.
#[verifier::external_body]
pub(crate) fn strip_path_prefix(path: &str, base: &str) -> (r: Option<String>)
    ensures
        opt_string_view(r) == path_relative_to(path@, base@),
{
    match std::path::Path::new(path).strip_prefix(base) {
        Ok(rel) => Some(rel.to_string_lossy().into_owned()),
        Err(_) => None,
    }
}

/// What `Duration::from_secs` returns for a number of seconds.
pub uninterp spec fn duration_from_secs(secs: u64) -> core::time::Duration;

/// What `Duration::from_millis` returns for a number of milliseconds.
pub uninterp spec fn duration_from_millis(millis: u64) -> core::time::Duration;

/// `Duration::from_secs`: a duration of whole seconds, named `duration_from_secs`.
pub assume_specification[ core::time::Duration::from_secs ](secs: u64) -> (r: core::time::Duration)
    ensures
        r == duration_from_secs(secs),
;

/// `Duration::from_millis`: a duration of milliseconds, named `duration_from_millis`.
pub assume_specification[ core::time::Duration::from_millis ](millis: u64) -> (r:
    core::time::Duration)
    ensures
        r == duration_from_millis(millis),
;

/// How `Debug` prints a list of strings: `["a", "b"]`, each string quoted and escaped.
pub uninterp spec fn strings_debug_text(v: Seq<Seq<char>>) -> Seq<char>;

/// Formats a list of strings with `{:?}`. The result is named `strings_debug_text`; it
/// begins with `[` and ends with `]`.
#[verifier::external_body]
pub(crate) fn strings_debug(v: &Vec<String>) -> (r: String)
    ensures
        r@ == strings_debug_text(v@.map_values(|s: String| s@)),
{
    format!("{:?}", v)
}

/// `Duration` is `Copy`: its `clone` gives the same duration.
pub assume_specification[ <core::time::Duration as core::clone::Clone>::clone ](d: &core::time::Duration) -> (r:
    core::time::Duration)
    ensures
        r == *d,
;

/// `SystemTime`, carried through as an opaque value.
#[verifier::external_type_specification]
#[verifier::external_body]
pub struct ExSystemTime(std::time::SystemTime);

/// `SystemTime::now`: the current time of the system clock; nothing is promised of it.
pub assume_specification[ std::time::SystemTime::now ]() -> std::time::SystemTime;

/// `SystemTime::duration_since(UNIX_EPOCH)`: how long after the Unix epoch a time is,
/// `None` for a time before it. The system clock may have been set to anything, so
/// nothing is promised of the duration.
#[verifier::external_body]
pub(crate) fn duration_since_epoch(t: &std::time::SystemTime) -> (r: Option<core::time::Duration>)
{
    t.duration_since(std::time::UNIX_EPOCH).ok()
}

/// `Duration::as_secs`: the whole seconds of a duration; nothing more is stated of it.
pub assume_specification[ core::time::Duration::as_secs ](d: &core::time::Duration) -> u64;

/// `SystemTime` is `Copy`: its `clone` gives the same time.
pub assume_specification[ <std::time::SystemTime as core::clone::Clone>::clone ](t: &std::time::SystemTime) -> (r:
    std::time::SystemTime)
    ensures
        r == *t,
;

/// What `Path::file_name` gives for a path, as text: its final component, where it has
/// one that is a name (not where it ends in `..`, nor for a root).
pub uninterp spec fn path_file_name(path: Seq<char>) -> Option<Seq<char>>;

/// Calls `Path::new(path).file_name()` and turns the name into a `String`
/// (`to_string_lossy`, exact for a path made from a `str`). The result is named
/// `path_file_name`.
#[verifier::external_body]
pub(crate) fn file_name_of(path: &str) -> (r: Option<String>)
    ensures
        opt_string_view(r) == path_file_name(path@),
{
    match std::path::Path::new(path).file_name() {
        Some(name) => Some(name.to_string_lossy().into_owned()),
        None => None,
    }
}

/// What `Path::parent` gives for a path, as text: the path without its final
/// component, where it has one.
pub uninterp spec fn path_parent(path: Seq<char>) -> Option<Seq<char>>;

/// Calls `Path::new(path).parent()` and turns the result into a `String`
/// (`to_string_lossy`, exact for a path made from a `str`). The result is named
/// `path_parent`.
#[verifier::external_body]
pub(crate) fn parent_of(path: &str) -> (r: Option<String>)
    ensures
        opt_string_view(r) == path_parent(path@),
{
    match std::path::Path::new(path).parent() {
        Some(parent) => Some(parent.to_string_lossy().into_owned()),
        None => None,
    }
}

/// What `Path::join` gives for a path and a relative one, as text.
pub uninterp spec fn path_join(base: Seq<char>, rel: Seq<char>) -> Seq<char>;

/// Calls `Path::new(base).join(rel)` and turns the result into a `String`
/// (`to_string_lossy`, exact for paths made from `str`). The result is named `path_join`.
#[verifier::external_body]
pub(crate) fn join_path(base: &str, rel: &str) -> (r: String)
    ensures
        r@ == path_join(base@, rel@),
{
    std::path::Path::new(base).join(rel).to_string_lossy().into_owned()
}

// ---------------------------------------------------------------------------
// serde_json
// ---------------------------------------------------------------------------

/// What reading the `position` of JSON request parameters gives: `None` where the text
/// is not JSON or has no `position` field; else its `line` and `character` fields, each
/// `Some` where it is an integer that fits in a `u64`.
pub uninterp spec fn json_position(params: Seq<char>) -> Option<(Option<u64>, Option<u64>)>;

/// Parses the text with `serde_json::from_str::<Value>`, takes `get("position")`, and of
/// that `get("line")` and `get("character")`, each read with `Value::as_u64`. The result
/// is named `json_position`.
#[verifier::external_body]
pub(crate) fn json_position_fields(params: &str) -> (r: Option<(Option<u64>, Option<u64>)>)
    ensures
        r == json_position(params@),
{
    let value: serde_json::Value = match serde_json::from_str(params) {
        Ok(v) => v,
        Err(_) => return None,
    };
    let position = match value.get("position") { Some(p) => p, None => return None };
    let line = match position.get("line") { Some(l) => l.as_u64(), None => None };
    let character = match position.get("character") { Some(c) => c.as_u64(), None => None };
    Some((line, character))
}

/// What the first item of a JSON array gives as its `name`: `None` where the bytes are
/// not a JSON array, the array is empty, or its first item has no `name` that is a
/// string.
pub uninterp spec fn json_first_name(data: Seq<u8>) -> Option<Seq<char>>;

/// Parses the bytes with `serde_json::from_slice::<Vec<Value>>`, takes the first item's
/// `get("name")` and reads it with `Value::as_str`. The result is named
/// `json_first_name`.
#[verifier::external_body]
pub(crate) fn json_first_item_name(data: &[u8]) -> (r: Option<String>)
    ensures
        opt_string_view(r) == json_first_name(data@),
{
    let items: Vec<serde_json::Value> = match serde_json::from_slice(data) {
        Ok(items) => items,
        Err(_) => return None,
    };
    let first = match items.first() { Some(item) => item, None => return None };
    match first.get("name") {
        Some(name) => name.as_str().map(|s| s.to_string()),
        None => None,
    }
}

// ---------------------------------------------------------------------------
// pathdiff
// ---------------------------------------------------------------------------

/// What `pathdiff::diff_paths` gives for a path and a base directory, as text: the
/// relative path that leads from `base` to `path`.
pub uninterp spec fn path_diff(path: Seq<char>, base: Seq<char>) -> Option<Seq<char>>;

/// Calls `pathdiff::diff_paths(path, base)` and turns the result into a `String`
/// (`to_string_lossy`, exact for paths made from `str`). The result is named `path_diff`.
#[verifier::external_body]
pub(crate) fn diff_paths(path: &str, base: &str) -> (r: Option<String>)
    ensures
        opt_string_view(r) == path_diff(path@, base@),
{
    match pathdiff::diff_paths(path, base) {
        Some(rel) => Some(rel.to_string_lossy().into_owned()),
        None => None,
    }
}

// ---------------------------------------------------------------------------
// blake3 and sha2
// ---------------------------------------------------------------------------

/// Lowercase hexadecimal digit, as hash digests are printed.
pub open spec fn is_lower_hex(c: char) -> bool {
    ('0' <= c && c <= '9') || ('a' <= c && c <= 'f')
}

/// What the BLAKE3 digest of a byte string is, printed by `Hash::to_hex`.
pub uninterp spec fn blake3_bytes_hex(data: Seq<u8>) -> Seq<char>;

/// The BLAKE3 digest of the UTF-8 bytes of a text, printed by `Hash::to_hex`.
pub open spec fn blake3_hex_of(text: Seq<char>) -> Seq<char> {
    blake3_bytes_hex(vstd::utf8::encode_utf8(text))
}

/// What the SHA-256 digest of the UTF-8 bytes of a text is, printed with `{:x}`.
pub uninterp spec fn sha256_hex_of(text: Seq<char>) -> Seq<char>;

/// Feeds `data` to a `blake3::Hasher` and returns `finalize().to_hex()`. The result is
/// named `blake3_bytes_hex`; `Hash::to_hex` writes two lowercase hex digits for each of
/// the 32 digest bytes, so it has 64 of them. Feeding a hasher several slices one after
/// the other digests their concatenation, so one call on the concatenation stands for
/// a run of `update` calls.
#[verifier::external_body]
pub(crate) fn blake3_hex_bytes(data: &[u8]) -> (r: String)
    ensures
        r@ == blake3_bytes_hex(data@),
        r@.len() == 64,
        forall|i: int| 0 <= i < 64 ==> is_lower_hex(#[trigger] r@[i]),
{
    let mut hasher = blake3::Hasher::new();
    hasher.update(data);
    hasher.finalize().to_hex().to_string()
}

/// The BLAKE3 digest of the UTF-8 bytes of a text, in lowercase hex.
pub fn blake3_hex(text: &str) -> (r: String)
    ensures
        r@ == blake3_hex_of(text@),
        r@.len() == 64,
        forall|i: int| 0 <= i < 64 ==> is_lower_hex(#[trigger] r@[i]),
{
    let bytes = text.as_bytes_vec();
    blake3_hex_bytes(bytes.as_slice())
}

/// Feeds the UTF-8 bytes of `text` to a `sha2::Sha256` and formats the digest with `{:x}`.
/// The result is named `sha256_hex_of`; the `LowerHex` impl of the 32-byte digest array
/// writes two lowercase hex digits per byte, so it has 64 of them.
#[verifier::external_body]
pub(crate) fn sha256_hex(text: &str) -> (r: String)
    ensures
        r@ == sha256_hex_of(text@),
        r@.len() == 64,
        forall|i: int| 0 <= i < 64 ==> is_lower_hex(#[trigger] r@[i]),
{
    let mut hasher = sha2::Sha256::new();
    hasher.update(text.as_bytes());
    format!("{:x}", hasher.finalize())
}

// ---------------------------------------------------------------------------
// regex
// ---------------------------------------------------------------------------

/// Whether `regex::Regex::new` accepts a pattern.
pub uninterp spec fn regex_is_valid(pattern: Seq<char>) -> bool;

/// What `Regex::replace_all` returns for a pattern, a text and a replacement template.
pub uninterp spec fn regex_replace_all_text(
    pattern: Seq<char>,
    text: Seq<char>,
    replacement: Seq<char>,
) -> Seq<char>;

/// What `Regex::captures` finds: `None` when there is no match, else every capture
/// group of the leftmost match (group 0 first), each `None` where it did not take part.
pub uninterp spec fn regex_first_captures(pattern: Seq<char>, text: Seq<char>) -> Option<
    Seq<Option<Seq<char>>>,
>;

/// What `Regex::captures_iter` yields: the capture groups of each successive match.
pub uninterp spec fn regex_all_captures(pattern: Seq<char>, text: Seq<char>) -> Seq<
    Seq<Option<Seq<char>>>,
>;

/// Compiles `pattern` with `Regex::new` and, if that succeeds, returns
/// `replace_all(text, replacement)`. `None` exactly when the pattern is refused.
#[verifier::external_body]
pub(crate) fn regex_replace_all(pattern: &str, text: &str, replacement: &str) -> (r: Option<String>)
    ensures
        match r {
            Some(s) => regex_is_valid(pattern@) && s@ == regex_replace_all_text(
                pattern@,
                text@,
                replacement@,
            ),
            None => !regex_is_valid(pattern@),
        },
{
    match regex::Regex::new(pattern) {
        Ok(re) => Some(re.replace_all(text, replacement).into_owned()),
        Err(_) => None,
    }
}

/// Compiles `pattern` with `Regex::new` and, if that succeeds, returns the capture
/// groups of `captures(text)` as owned strings. `None` when the pattern is refused.
#[verifier::external_body]
pub(crate) fn regex_captures(pattern: &str, text: &str) -> (r: Option<Option<Vec<Option<String>>>>)
    ensures
        match r {
            Some(m) => regex_is_valid(pattern@) && opt_groups_view(m) == regex_first_captures(
                pattern@,
                text@,
            ),
            None => !regex_is_valid(pattern@),
        },
{
    match regex::Regex::new(pattern) {
        Ok(re) => Some(
            re.captures(text).map(
                |c| c.iter().map(|g| g.map(|g| g.as_str().to_string())).collect(),
            ),
        ),
        Err(_) => None,
    }
}

/// Compiles `pattern` with `Regex::new` and, if that succeeds, returns the capture
/// groups of every match of `captures_iter(text)`. `None` when the pattern is refused.
#[verifier::external_body]
pub(crate) fn regex_captures_iter(pattern: &str, text: &str) -> (r: Option<Vec<Vec<Option<String>>>>)
    ensures
        match r {
            Some(ms) => regex_is_valid(pattern@) && ms@.map_values(
                |m: Vec<Option<String>>| groups_view(m),
            ) == regex_all_captures(pattern@, text@),
            None => !regex_is_valid(pattern@),
        },
{
    match regex::Regex::new(pattern) {
        Ok(re) => Some(
            re.captures_iter(text).map(
                |c| c.iter().map(|g| g.map(|g| g.as_str().to_string())).collect(),
            ).collect(),
        ),
        Err(_) => None,
    }
}

pub open spec fn opt_string_view(o: Option<String>) -> Option<Seq<char>> {
    match o {
        Some(s) => Some(s@),
        None => None,
    }
}

pub open spec fn groups_view(m: Vec<Option<String>>) -> Seq<Option<Seq<char>>> {
    m@.map_values(|g: Option<String>| opt_string_view(g))
}

pub open spec fn opt_groups_view(m: Option<Vec<Option<String>>>) -> Option<Seq<Option<Seq<char>>>> {
    match m {
        Some(g) => Some(groups_view(g)),
        None => None,
    }
}

} // verus!
