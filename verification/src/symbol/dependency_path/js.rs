use vstd::prelude::*;
use crate::text::{chars_of, find, find_exec, lemma_find, matches_at, slice};
use super::{
    dep_with_tail, dep_with_tail_exec, first_component, split_first_component, tail_or_empty,
    DependencyPathClassifier,
};

verus! {

broadcast use vstd::string::group_string_axioms;

/// Classifies paths under `node_modules`.
pub struct JsDep;

pub open spec fn node_modules_marker() -> Seq<char> {
    "/node_modules/"@
}

/// `/dep/js/<package>[/<sub>]`, where a scoped package is named `@scope/name`.
pub open spec fn js_dep_path(p: Seq<char>) -> Option<Seq<char>> {
    match find(p, node_modules_marker()) {
        Some(idx) => {
            let after = p.skip(idx + node_modules_marker().len());
            if after.len() > 0 && after[0] == '@' {
                let (scope, rest1) = first_component(after);
                match rest1 {
                    Some(r) => {
                        let (pkg, rest2) = first_component(r);
                        Some(dep_with_tail("/dep/js/"@, scope + "/"@ + pkg, tail_or_empty(rest2)))
                    },
                    None => None,
                }
            } else {
                let (pkg, rest) = first_component(after);
                Some(dep_with_tail("/dep/js/"@, pkg, tail_or_empty(rest)))
            }
        },
        None => None,
    }
}

impl DependencyPathClassifier for JsDep {
    fn classify(&self, absolute_path: &str) -> (r: Option<String>)
        ensures
            match r {
                Some(d) => js_dep_path(absolute_path@) == Some(d@),
                None => js_dep_path(absolute_path@) is None,
            },
    {
        let p = chars_of(absolute_path);
        let marker = chars_of("/node_modules/");
        match find_exec(&p, &marker) {
            Some(idx) => {
                proof {
                    lemma_find(p@, marker@);
                    assert(matches_at(p@, marker@, idx as int));
                    assert(idx + marker.len() <= p.len());
                }
                let after = slice(&p, idx + marker.len(), p.len());
                if after.len() > 0 && after[0] == '@' {
                    let (scope, rest1) = split_first_component(&after);
                    match rest1 {
                        Some(r) => {
                            let (pkg, rest2) = split_first_component(&r);
                            let tail = match rest2 {
                                Some(t) => t,
                                None => Vec::new(),
                            };
                            assert(tail@ == tail_or_empty(first_component(r@).1));
                            let mut name = scope;
                            crate::text::append(&mut name, &chars_of("/"));
                            crate::text::append(&mut name, &pkg);
                            Some(dep_with_tail_exec("/dep/js/", &name, &tail))
                        },
                        None => None,
                    }
                } else {
                    let (pkg, rest) = split_first_component(&after);
                    let tail = match rest {
                        Some(t) => t,
                        None => Vec::new(),
                    };
                    assert(tail@ == tail_or_empty(first_component(after@).1));
                    Some(dep_with_tail_exec("/dep/js/", &pkg, &tail))
                }
            },
            None => None,
        }
    }
}

} // verus!
