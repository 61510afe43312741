//! Mapping of absolute paths of dependency sources (the Rust standard library and
//! Cargo registry, `node_modules`, the Go module cache) to stable `/dep/...` paths.
use vstd::prelude::*;
use crate::text::{append, chars_of, find, find_exec, lemma_find, matches_at, slice, starts_with};

mod go;
mod js;
mod rust;

pub use go::{go_dep_path, go_module_dep_path, GoDep};
pub use js::{js_dep_path, JsDep};
pub use rust::{rust_dep_path, strip_trailing_version, RustDep};

verus! {

broadcast use vstd::string::group_string_axioms;

/// Maps the absolute path of a dependency source to its `/dep/...` path.
pub trait DependencyPathClassifier {
    fn classify(&self, absolute_path: &str) -> Option<String>;
}

/// The first `/`-separated component of a path and what follows the first `/`, if
/// there is one (`splitn(2, '/')`).
pub open spec fn first_component(s: Seq<char>) -> (Seq<char>, Option<Seq<char>>) {
    match find(s, "/"@) {
        Some(i) => (s.take(i), Some(s.skip(i + 1))),
        None => (s, None),
    }
}

/// `prefix + name`, followed by `/tail` when the tail is not empty.
pub open spec fn dep_with_tail(prefix: Seq<char>, name: Seq<char>, tail: Seq<char>) -> Seq<char> {
    if tail.len() == 0 {
        prefix + name
    } else {
        prefix + name + "/"@ + tail
    }
}

/// The text of an optional tail, empty where there is none.
pub open spec fn tail_or_empty(t: Option<Seq<char>>) -> Seq<char> {
    match t {
        Some(t) => t,
        None => Seq::empty(),
    }
}

pub(crate) fn split_first_component(s: &Vec<char>) -> (r: (Vec<char>, Option<Vec<char>>))
    ensures
        r.0@ == first_component(s@).0,
        match r.1 {
            Some(t) => first_component(s@).1 == Some(t@),
            None => first_component(s@).1 is None,
        },
{
    match find_exec(s, &chars_of("/")) {
        Some(i) => {
            proof {
                reveal_strlit("/");
                lemma_find(s@, "/"@);
                assert(matches_at(s@, "/"@, i as int));
                assert(i + 1 <= s.len());
            }
            (slice(s, 0, i), Some(slice(s, i + 1, s.len())))
        },
        None => (s.clone(), None),
    }
}

pub(crate) fn dep_with_tail_exec(prefix: &str, name: &Vec<char>, tail: &Vec<char>) -> (r: String)
    ensures
        r@ == dep_with_tail(prefix@, name@, tail@),
{
    let mut out = chars_of(prefix);
    append(&mut out, name);
    if tail.len() > 0 {
        append(&mut out, &chars_of("/"));
        append(&mut out, tail);
    }
    crate::text::string_of(&out)
}

/// What `classify_absolute_path` returns: the first classifier's match, in the order
/// Rust, JavaScript, Go.
pub open spec fn classified_path(absolute: Seq<char>, go: GoDep) -> Option<Seq<char>> {
    match rust_dep_path(absolute) {
        Some(d) => Some(d),
        None => match js_dep_path(absolute) {
            Some(d) => Some(d),
            None => go_dep_path(absolute, go),
        },
    }
}

/// Try all registered classifiers; return the first match.
pub fn classify_absolute_path(absolute: &str, go: &GoDep) -> (r: Option<String>)
    ensures
        match r {
            Some(d) => classified_path(absolute@, *go) == Some(d@),
            None => classified_path(absolute@, *go) is None,
        },
{
    match RustDep.classify(absolute) {
        Some(dep) => return Some(dep),
        None => {},
    }
    match JsDep.classify(absolute) {
        Some(dep) => return Some(dep),
        None => {},
    }
    go.classify(absolute)
}

/// A path that begins with `q`, where `q` begins with `p`, begins with `p`.
proof fn lemma_starts_with_trans(s: Seq<char>, q: Seq<char>, p: Seq<char>)
    requires
        starts_with(s, q),
        starts_with(q, p),
    ensures
        starts_with(s, p),
{
    assert(s.subrange(0, p.len() as int) =~= q.subrange(0, p.len() as int));
}

/// Each prefix of a dependency path begins with `/dep/`.
proof fn lemma_dep_prefixes()
    ensures
        starts_with("/dep/rust/system/"@, "/dep/"@),
        starts_with("/dep/rust/"@, "/dep/"@),
        starts_with("/dep/js/"@, "/dep/"@),
        starts_with("/dep/go/"@, "/dep/"@),
        starts_with("/dep/go/system/"@, "/dep/"@),
{
    reveal_strlit("/dep/");
    reveal_strlit("/dep/rust/system/");
    reveal_strlit("/dep/rust/");
    reveal_strlit("/dep/js/");
    reveal_strlit("/dep/go/");
    reveal_strlit("/dep/go/system/");
    assert("/dep/rust/system/"@.subrange(0, 5) =~= "/dep/"@);
    assert("/dep/rust/"@.subrange(0, 5) =~= "/dep/"@);
    assert("/dep/js/"@.subrange(0, 5) =~= "/dep/"@);
    assert("/dep/go/"@.subrange(0, 5) =~= "/dep/"@);
    assert("/dep/go/system/"@.subrange(0, 5) =~= "/dep/"@);
}

proof fn lemma_dep_with_tail_prefix(prefix: Seq<char>, name: Seq<char>, tail: Seq<char>)
    ensures
        starts_with(dep_with_tail(prefix, name, tail), prefix),
{
    let d = dep_with_tail(prefix, name, tail);
    assert(d.subrange(0, prefix.len() as int) =~= prefix);
}

/// Every path that a classifier maps lies under `/dep/`.
pub proof fn law_classified_under_dep(absolute: Seq<char>, go: GoDep)
    ensures
        classified_path(absolute, go) matches Some(d) ==> starts_with(d, "/dep/"@),
{
    reveal_strlit("/dep/");
    reveal_strlit("/dep/rust/system/");
    reveal_strlit("/dep/rust/");
    reveal_strlit("/dep/js/");
    reveal_strlit("/dep/go/");
    reveal_strlit("/dep/go/system/");
    lemma_dep_prefixes();
    match classified_path(absolute, go) {
        Some(d) => {
            if rust_dep_path(absolute) is Some {
                match find(absolute, rust::stdlib_marker()) {
                    Some(idx) => {
                        let after = absolute.skip(idx + rust::stdlib_marker().len());
                        let (c, rest) = first_component(after);
                        lemma_dep_with_tail_prefix("/dep/rust/system/"@, c, tail_or_empty(rest));
                        lemma_starts_with_trans(d, "/dep/rust/system/"@, "/dep/"@);
                    },
                    None => {
                        let idx = find(absolute, rust::registry_marker())->0;
                        let after = absolute.skip(idx + rust::registry_marker().len());
                        let index = first_component(after).0;
                        let in_index = crate::text::trim_start(
                            after.skip(index.len() as int),
                            crate::text::TrimSet::Only('/'),
                        );
                        let (c, rest) = first_component(in_index);
                        lemma_dep_with_tail_prefix(
                            "/dep/rust/"@,
                            rust::crate_name_of(c),
                            tail_or_empty(rest),
                        );
                        lemma_starts_with_trans(d, "/dep/rust/"@, "/dep/"@);
                    },
                }
            } else if js_dep_path(absolute) is Some {
                let idx = find(absolute, js::node_modules_marker())->0;
                let after = absolute.skip(idx + js::node_modules_marker().len());
                if after.len() > 0 && after[0] == '@' {
                    let (scope, rest1) = first_component(after);
                    let (pkg, rest2) = first_component(rest1->0);
                    lemma_dep_with_tail_prefix("/dep/js/"@, scope + "/"@ + pkg, tail_or_empty(rest2));
                } else {
                    let (pkg, rest) = first_component(after);
                    lemma_dep_with_tail_prefix("/dep/js/"@, pkg, tail_or_empty(rest));
                }
                lemma_starts_with_trans(d, "/dep/js/"@, "/dep/"@);
            } else {
                lemma_go_under_dep(absolute, go);
            }
        },
        None => {},
    }
}

proof fn lemma_go_module_path_prefix(rel: Seq<char>)
    ensures
        starts_with(go::go_module_path(rel), "/dep/go/"@),
{
    match crate::text::rfind_char(rel, '@') {
        Some(at) => {
            let after_at = rel.skip(at);
            let sub = match find(after_at, "/"@) {
                Some(j) => after_at.skip(j + 1),
                None => Seq::empty(),
            };
            lemma_dep_with_tail_prefix("/dep/go/"@, rel.take(at), sub);
        },
        None => {
            let (module, sub) = first_component(rel);
            lemma_dep_with_tail_prefix("/dep/go/"@, module, tail_or_empty(sub));
        },
    }
}

proof fn lemma_go_under_dep(absolute: Seq<char>, go: GoDep)
    requires
        go_dep_path(absolute, go) is Some,
    ensures
        starts_with(go_dep_path(absolute, go)->0, "/dep/"@),
{
    reveal_strlit("/dep/");
    reveal_strlit("/dep/go/");
    reveal_strlit("/dep/go/system/");
    let d = go_dep_path(absolute, go)->0;
    let in_root = match go.goroot {
        Some(root) => starts_with(absolute, go::go_dir(root@, "/src/"@)),
        None => false,
    };
    let in_cache = match go.gomodcache {
        Some(cache) => starts_with(absolute, cache@),
        None => false,
    };
    lemma_dep_prefixes();
    if in_root {
        assert(d.subrange(0, 15) =~= "/dep/go/system/"@);
        lemma_starts_with_trans(d, "/dep/go/system/"@, "/dep/"@);
    } else if in_cache {
        lemma_go_module_path_prefix(
            crate::text::trim_start(
                absolute.skip(go.gomodcache->0@.len() as int),
                crate::text::TrimSet::Only('/'),
            ),
        );
        lemma_starts_with_trans(d, "/dep/go/"@, "/dep/"@);
    } else {
        let moddir = go::go_dir(go.gopath->0@, "/pkg/mod/"@);
        lemma_go_module_path_prefix(absolute.skip(find(absolute, moddir)->0 + moddir.len()));
        lemma_starts_with_trans(d, "/dep/go/"@, "/dep/"@);
    }
}

} // verus!
