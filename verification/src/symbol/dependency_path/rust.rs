use vstd::prelude::*;
use crate::text::{
    chars_of, find, find_exec, is_ascii_digit, lemma_find, matches_at, rfind_char, rfind_char_exec,
    lemma_rfind_char_below, slice, string_of, trim_start, trim_start_exec, TrimSet,
};
use super::{
    dep_with_tail, dep_with_tail_exec, first_component, split_first_component, tail_or_empty,
    DependencyPathClassifier,
};

verus! {

broadcast use vstd::string::group_string_axioms;

/// Classifies paths of the Rust standard library and of the Cargo registry.
pub struct RustDep;

pub open spec fn stdlib_marker() -> Seq<char> {
    "/rustlib/src/rust/library/"@
}

pub open spec fn registry_marker() -> Seq<char> {
    "/registry/src/"@
}

/// A version: digits and dots only.
pub open spec fn is_version_text(v: Seq<char>) -> bool {
    forall|i: int| 0 <= i < v.len() ==> is_ascii_digit(#[trigger] v[i]) || v[i] == '.'
}

/// A crate directory's name without a trailing `-<version>`.
pub open spec fn crate_name_of(crate_dir: Seq<char>) -> Seq<char> {
    match rfind_char(crate_dir, '-') {
        Some(i) => if is_version_text(crate_dir.skip(i + 1)) {
            crate_dir.take(i)
        } else {
            crate_dir
        },
        None => crate_dir,
    }
}

/// `/dep/rust/system/<crate>[/<sub>]` for the standard library,
/// `/dep/rust/<crate>[/<sub>]` for a crate of the Cargo registry.
pub open spec fn rust_dep_path(p: Seq<char>) -> Option<Seq<char>> {
    match find(p, stdlib_marker()) {
        Some(idx) => {
            let after = p.skip(idx + stdlib_marker().len());
            let (crate_name, rest) = first_component(after);
            Some(dep_with_tail("/dep/rust/system/"@, crate_name, tail_or_empty(rest)))
        },
        None => match find(p, registry_marker()) {
            Some(idx) => {
                let after = p.skip(idx + registry_marker().len());
                let index = first_component(after).0;
                let in_index = trim_start(after.skip(index.len() as int), TrimSet::Only('/'));
                let (crate_dir, rest) = first_component(in_index);
                Some(dep_with_tail("/dep/rust/"@, crate_name_of(crate_dir), tail_or_empty(rest)))
            },
            None => None,
        },
    }
}

/// The crate name in a registry directory name such as `serde-1.0.210`.
pub fn strip_trailing_version(crate_dir: &str) -> (r: String)
    ensures
        r@ == crate_name_of(crate_dir@),
{
    let d = chars_of(crate_dir);
    match rfind_char_exec(&d, '-') {
        Some(idx) => {
            proof {
                lemma_rfind_char_below(d@, '-', d@.len() as int);
            }
            let ver = slice(&d, idx + 1, d.len());
            let mut all = true;
            let mut i: usize = 0;
            while i < ver.len()
                invariant
                    i <= ver@.len(),
                    all == (forall|j: int|
                        0 <= j < i ==> is_ascii_digit(#[trigger] ver@[j]) || ver@[j] == '.'),
                decreases ver.len() - i,
            {
                let c = ver[i];
                all = all && (('0' <= c && c <= '9') || c == '.');
                i += 1;
            }
            assert(ver@ =~= d@.skip(idx + 1));
            if all {
                return string_of(&slice(&d, 0, idx));
            }
        },
        None => {},
    }
    crate_dir.to_string()
}

impl DependencyPathClassifier for RustDep {
    fn classify(&self, absolute_path: &str) -> (r: Option<String>)
        ensures
            match r {
                Some(d) => rust_dep_path(absolute_path@) == Some(d@),
                None => rust_dep_path(absolute_path@) is None,
            },
    {
        let p = chars_of(absolute_path);
        let std_marker = chars_of("/rustlib/src/rust/library/");
        // Rust stdlib: .../rustlib/src/rust/library/<crate>/<sub>
        match find_exec(&p, &std_marker) {
            Some(idx) => {
                proof {
                    lemma_find(p@, std_marker@);
                    assert(matches_at(p@, std_marker@, idx as int));
                    assert(idx + std_marker.len() <= p.len());
                }
                let after = slice(&p, idx + std_marker.len(), p.len());
                let (crate_name, rest) = split_first_component(&after);
                let tail = match rest {
                    Some(t) => t,
                    None => Vec::new(),
                };
                assert(tail@ == tail_or_empty(first_component(after@).1));
                return Some(dep_with_tail_exec("/dep/rust/system/", &crate_name, &tail));
            },
            None => {},
        }
        // Cargo registry: ~/.cargo/registry/src/<index>/<crate>-<version>/<sub>
        let reg_marker = chars_of("/registry/src/");
        match find_exec(&p, &reg_marker) {
            Some(idx) => {
                proof {
                    lemma_find(p@, reg_marker@);
                    assert(matches_at(p@, reg_marker@, idx as int));
                    assert(idx + reg_marker.len() <= p.len());
                }
                let after = slice(&p, idx + reg_marker.len(), p.len());
                let (index, _) = split_first_component(&after);
                proof {
                    reveal_strlit("/");
                    lemma_find(after@, "/"@);
                }
                let in_index = trim_start_exec(&slice(&after, index.len(), after.len()), TrimSet::Only('/'));
                let (crate_dir, rest) = split_first_component(&in_index);
                let crate_name = strip_trailing_version(string_of(&crate_dir).as_str());
                let tail = match rest {
                    Some(t) => t,
                    None => Vec::new(),
                };
                assert(tail@ == tail_or_empty(first_component(in_index@).1));
                Some(dep_with_tail_exec("/dep/rust/", &chars_of(crate_name.as_str()), &tail))
            },
            None => None,
        }
    }
}

/// A registry directory named after a crate and a version (digits and dots) gives the
/// crate's name, whatever the name holds (dashes included); a directory name without a
/// dash is a crate name already.
pub proof fn law_crate_name_drops_version(name: Seq<char>, version: Seq<char>, plain: Seq<char>)
    ensures
        (forall|i: int| 0 <= i < version.len() ==> ('0' <= #[trigger] version[i] <= '9' || version[i]
            == '.')) ==> crate_name_of(name + seq!['-'] + version) == name,
        (forall|i: int| 0 <= i < plain.len() ==> #[trigger] plain[i] != '-') ==> crate_name_of(plain)
            == plain,
{
    let d = name + seq!['-'] + version;
    lemma_rfind_char_below(d, '-', d.len() as int);
    if forall|i: int| 0 <= i < version.len() ==> ('0' <= #[trigger] version[i] <= '9' || version[i]
        == '.') {
        assert(d[name.len() as int] == '-');
        match rfind_char(d, '-') {
            Some(k) => {
                if k > name.len() {
                    assert(d[k] == version[k - name.len() - 1]);
                }
                if k < name.len() {
                    assert(d[name.len() as int] == '-');
                }
            },
            None => {},
        }
        assert(d.skip(name.len() as int + 1) =~= version);
        assert(d.take(name.len() as int) =~= name);
        assert(is_version_text(version));
    }
    lemma_rfind_char_below(plain, '-', plain.len() as int);
}

} // verus!
