use vstd::prelude::*;
use crate::text::{
    append, chars_of, find, find_exec, has_prefix, lemma_find, matches_at, lemma_rfind_char_below,
    rfind_char, rfind_char_exec, slice, starts_with, string_of, trim_end, trim_end_exec,
    trim_start, trim_start_exec, TrimSet,
};
use super::{
    dep_with_tail, dep_with_tail_exec, first_component, split_first_component, tail_or_empty,
    DependencyPathClassifier,
};

verus! {

broadcast use vstd::string::group_string_axioms;

/// Classifies paths of the Go standard library and of the Go module cache.
///
/// The locations are those that the `GOROOT`, `GOMODCACHE` and `GOPATH` environment
/// variables name; each is `None` where the variable is not set.
#[derive(Debug, Clone)]
pub struct GoDep {
    pub goroot: Option<String>,
    pub gomodcache: Option<String>,
    pub gopath: Option<String>,
}

impl GoDep {
    /// A classifier for the given Go locations.
    pub fn new(goroot: Option<String>, gomodcache: Option<String>, gopath: Option<String>) -> (r: Self)
        ensures
            r.goroot == goroot,
            r.gomodcache == gomodcache,
            r.gopath == gopath,
    {
        GoDep { goroot, gomodcache, gopath }
    }
}

/// `/dep/go/<module>[/<sub>]` for `<module>@<version>/<sub>`; without a version, the
/// module is the first path component.
pub open spec fn go_module_path(rel: Seq<char>) -> Seq<char> {
    match rfind_char(rel, '@') {
        Some(at) => {
            let after_at = rel.skip(at);
            let sub = match find(after_at, "/"@) {
                Some(j) => after_at.skip(j + 1),
                None => Seq::empty(),
            };
            dep_with_tail("/dep/go/"@, rel.take(at), sub)
        },
        None => {
            let (module, sub) = first_component(rel);
            dep_with_tail("/dep/go/"@, module, tail_or_empty(sub))
        },
    }
}

/// `<dir without trailing slashes><suffix>`
pub open spec fn go_dir(dir: Seq<char>, suffix: Seq<char>) -> Seq<char> {
    trim_end(dir, TrimSet::Only('/')) + suffix
}

/// The `/dep/go/...` path of a file of the standard library (under `GOROOT/src/`), of
/// the module cache (under `GOMODCACHE`), or of a module under `GOPATH/pkg/mod/`.
pub open spec fn go_dep_path(p: Seq<char>, go: GoDep) -> Option<Seq<char>> {
    let in_root = match go.goroot {
        Some(root) => starts_with(p, go_dir(root@, "/src/"@)),
        None => false,
    };
    let in_cache = match go.gomodcache {
        Some(cache) => starts_with(p, cache@),
        None => false,
    };
    let in_path = match go.gopath {
        Some(path) => find(p, go_dir(path@, "/pkg/mod/"@)) is Some,
        None => false,
    };
    if in_root {
        Some("/dep/go/system/"@ + p.skip(go_dir(go.goroot->0@, "/src/"@).len() as int))
    } else if in_cache {
        Some(
            go_module_path(
                trim_start(p.skip(go.gomodcache->0@.len() as int), TrimSet::Only('/')),
            ),
        )
    } else if in_path {
        let moddir = go_dir(go.gopath->0@, "/pkg/mod/"@);
        Some(go_module_path(p.skip(find(p, moddir)->0 + moddir.len())))
    } else {
        None
    }
}

/// The `/dep/go/...` path of a module-relative path `<module>@<version>/<sub>`.
pub fn go_module_dep_path(rel: &str) -> (r: String)
    ensures
        r@ == go_module_path(rel@),
{
    let rel = chars_of(rel);
    match rfind_char_exec(&rel, '@') {
        Some(at_idx) => {
            proof {
                lemma_rfind_char_below(rel@, '@', rel@.len() as int);
            }
            let module = slice(&rel, 0, at_idx);
            // starts with "@version/..." or "@version"
            let after_at = slice(&rel, at_idx, rel.len());
            let sub = match find_exec(&after_at, &chars_of("/")) {
                Some(j) => {
                    proof {
                        reveal_strlit("/");
                        lemma_find(after_at@, "/"@);
                        assert(matches_at(after_at@, "/"@, j as int));
                        assert(j + 1 <= after_at.len());
                    }
                    slice(&after_at, j + 1, after_at.len())
                },
                None => Vec::new(),
            };
            dep_with_tail_exec("/dep/go/", &module, &sub)
        },
        None => {
            // Fallback: split at first '/'
            let (module, sub) = split_first_component(&rel);
            let sub = match sub {
                Some(s) => s,
                None => Vec::new(),
            };
            assert(sub@ == tail_or_empty(first_component(rel@).1));
            dep_with_tail_exec("/dep/go/", &module, &sub)
        },
    }
}

impl DependencyPathClassifier for GoDep {
    fn classify(&self, absolute_path: &str) -> (r: Option<String>)
        ensures
            match r {
                Some(d) => go_dep_path(absolute_path@, *self) == Some(d@),
                None => go_dep_path(absolute_path@, *self) is None,
            },
    {
        let p = chars_of(absolute_path);
        match &self.goroot {
            Some(goroot) => {
                let mut root_src = trim_end_exec(&chars_of(goroot.as_str()), TrimSet::Only('/'));
                append(&mut root_src, &chars_of("/src/"));
                if has_prefix(&p, &root_src) {
                    let mut out = chars_of("/dep/go/system/");
                    append(&mut out, &slice(&p, root_src.len(), p.len()));
                    return Some(string_of(&out));
                }
            },
            None => {},
        }
        match &self.gomodcache {
            Some(gomodcache) => {
                let cache = chars_of(gomodcache.as_str());
                if has_prefix(&p, &cache) {
                    let rel = trim_start_exec(&slice(&p, cache.len(), p.len()), TrimSet::Only('/'));
                    return Some(go_module_dep_path(string_of(&rel).as_str()));
                }
            },
            None => {},
        }
        match &self.gopath {
            Some(gopath) => {
                let mut moddir = trim_end_exec(&chars_of(gopath.as_str()), TrimSet::Only('/'));
                append(&mut moddir, &chars_of("/pkg/mod/"));
                match find_exec(&p, &moddir) {
                    Some(i) => {
                        proof {
                            lemma_find(p@, moddir@);
                            assert(matches_at(p@, moddir@, i as int));
                            assert(i + moddir.len() <= p.len());
                        }
                        let rel = slice(&p, i + moddir.len(), p.len());
                        return Some(go_module_dep_path(string_of(&rel).as_str()));
                    },
                    None => {},
                }
            },
            None => {},
        }
        None
    }
}

} // verus!
