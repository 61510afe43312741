//! Normalization of the path part of version-aware UIDs: an absolute path becomes
//! relative to its workspace root.
use vstd::prelude::*;
use crate::text::{
    append, chars_of, eq_lit, has_prefix, replace, replace_exec, split, split_exec,
    splitn, splitn_exec, starts_with, string_of, trim_start, trim_start_exec, seqs_view,
    chars_eq, TrimSet,
};
use crate::external::{diff_paths, path_diff};

verus! {

broadcast use vstd::string::group_string_axioms;

// ---------------------------------------------------------------------------
// Model
// ---------------------------------------------------------------------------

/// A path that looks absolute: it begins with `/` or `\`, or with a drive letter and `:`.
pub open spec fn absolute_like(path: Seq<char>) -> bool {
    path.len() > 0 && (path[0] == '/' || path[0] == '\\' || (path.len() >= 2 && path[1] == ':'
        && (('a' <= path[0] && path[0] <= 'z') || ('A' <= path[0] && path[0] <= 'Z'))))
}

/// The fields of a UID whose path part is to be normalized: a non-empty UID that is
/// not external, unresolved or a fallback, with four `:`-separated fields (the last
/// takes the rest) and an absolute-looking path.
pub open spec fn normalization_fields(uid: Seq<char>) -> Option<Seq<Seq<char>>> {
    let parts = splitn(uid, 4, ":"@);
    if uid.len() == 0 || starts_with(uid, "EXTERNAL:"@) || starts_with(uid, "UNRESOLVED:"@)
        || starts_with(uid, "fallback_"@) {
        None
    } else if parts.len() < 4 || !absolute_like(parts[0]) {
        None
    } else {
        Some(parts)
    }
}

/// Whether a relative path climbs out of its base: one of its components is `..`.
pub open spec fn has_parent_component(path: Seq<char>) -> bool {
    exists|i: int| 0 <= i < split(path, "/"@).len() && #[trigger] split(path, "/"@)[i] == ".."@
}

/// The UID with its path part made relative to the workspace root, where the file
/// (canonicalized) lies strictly inside the (canonicalized) root; else the UID itself.
pub open spec fn normalized_uid(uid: Seq<char>, canonical_file: Seq<char>, canonical_root: Seq<
    char,
>) -> Seq<char> {
    match normalization_fields(uid) {
        None => uid,
        Some(parts) => {
            if !starts_with(canonical_file, "/"@) || canonical_file == canonical_root {
                uid
            } else {
                match path_diff(canonical_file, canonical_root) {
                    None => uid,
                    Some(rel) => {
                        let normalized = trim_start(
                            replace(rel, "\\"@, "/"@),
                            TrimSet::Only('/'),
                        );
                        if has_parent_component(rel) || normalized.len() == 0 {
                            uid
                        } else {
                            normalized + ":"@ + parts[1] + ":"@ + parts[2] + ":"@ + parts[3]
                        }
                    },
                }
            }
        },
    }
}

// ---------------------------------------------------------------------------
// Implementation
// ---------------------------------------------------------------------------

/// Returns true if the provided path string looks like an absolute path.
pub fn is_absolute_like(path: &str) -> (r: bool)
    ensures
        r == absolute_like(path@),
{
    let p = chars_of(path);
    if p.len() == 0 {
        return false;
    }
    if p[0] == '/' || p[0] == '\\' {
        return true;
    }
    // A drive letter: an ASCII letter, then `:` (bytes 0 and 1 of the text)
    if p.len() >= 2 {
        return p[1] == ':' && (('a' <= p[0] && p[0] <= 'z') || ('A' <= p[0] && p[0] <= 'Z'));
    }
    false
}

fn normalization_fields_exec(uid: &str) -> (r: Option<Vec<Vec<char>>>)
    ensures
        match r {
            Some(parts) => normalization_fields(uid@) == Some(seqs_view(parts@)),
            None => normalization_fields(uid@) is None,
        },
{
    let u = chars_of(uid);
    if u.len() == 0 || has_prefix(&u, &chars_of("EXTERNAL:")) || has_prefix(
        &u,
        &chars_of("UNRESOLVED:"),
    ) || has_prefix(&u, &chars_of("fallback_")) {
        return None;
    }
    proof {
        reveal_strlit(":");
    }
    let parts = splitn_exec(&u, 4, &chars_of(":"));
    if parts.len() < 4 {
        return None;
    }
    if !is_absolute_like(string_of(&parts[0]).as_str()) {
        return None;
    }
    Some(parts)
}

/// The path part of a UID, where the UID is one whose path is to be normalized: what
/// a caller canonicalizes before calling `normalize_uid_with_paths`.
pub fn uid_path_to_normalize(uid: &str) -> (r: Option<String>)
    ensures
        match r {
            Some(p) => normalization_fields(uid@) matches Some(parts) && p@ == parts[0],
            None => normalization_fields(uid@) is None,
        },
{
    match normalization_fields_exec(uid) {
        Some(parts) => Some(string_of(&parts[0])),
        None => None,
    }
}

fn has_parent_component_exec(path: &Vec<char>) -> (r: bool)
    ensures
        r == has_parent_component(path@),
{
    proof {
        reveal_strlit("/");
    }
    let segments = split_exec(path, &chars_of("/"));
    let mut i: usize = 0;
    while i < segments.len()
        invariant
            i <= segments@.len(),
            seqs_view(segments@) == split(path@, "/"@),
            forall|j: int| 0 <= j < i ==> split(path@, "/"@)[j] != ".."@,
        decreases segments.len() - i,
    {
        if eq_lit(&segments[i], "..") {
            assert(split(path@, "/"@)[i as int] == ".."@);
            return true;
        }
        i += 1;
    }
    false
}

/// Normalize the path part of a version-aware UID `path:hash:name:line`, given the
/// file that its path names and the workspace root, both canonicalized: the path
/// becomes the file's path relative to the root. The UID is returned unchanged where it
/// is not to be normalized, where the file's path is not absolute, or where the file
/// does not lie strictly inside the root.
pub fn normalize_uid_with_paths(uid: &str, canonical_file: &str, canonical_root: &str) -> (r: String)
    ensures
        r@ == normalized_uid(uid@, canonical_file@, canonical_root@),
{
    let parts = match normalization_fields_exec(uid) {
        Some(parts) => parts,
        None => return uid.to_string(),
    };
    let file = chars_of(canonical_file);
    proof {
        reveal_strlit("/");
    }
    if !(file.len() > 0 && file[0] == '/') {
        assert(!starts_with(file@, "/"@)) by {
            if starts_with(file@, "/"@) {
                assert(file@.subrange(0, 1)[0] == file@[0]);
            }
        }
        return uid.to_string();
    }
    assert(file@.subrange(0, 1) =~= "/"@);
    if chars_eq(&file, &chars_of(canonical_root)) {
        return uid.to_string();
    }
    let relative_path = match diff_paths(canonical_file, canonical_root) {
        Some(rel) => chars_of(rel.as_str()),
        None => return uid.to_string(),
    };
    if has_parent_component_exec(&relative_path) {
        return uid.to_string();
    }
    let normalized = trim_start_exec(
        &replace_exec(&relative_path, &chars_of("\\"), &chars_of("/")),
        TrimSet::Only('/'),
    );
    if normalized.len() == 0 {
        return uid.to_string();
    }
    let colon = chars_of(":");
    assert(parts@[1]@ == seqs_view(parts@)[1] && parts@[2]@ == seqs_view(parts@)[2]
        && parts@[3]@ == seqs_view(parts@)[3]);
    let mut out = normalized;
    append(&mut out, &colon);
    append(&mut out, &parts[1]);
    append(&mut out, &colon);
    append(&mut out, &parts[2]);
    append(&mut out, &colon);
    append(&mut out, &parts[3]);
    string_of(&out)
}

} // verus!
