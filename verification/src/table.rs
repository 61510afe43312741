//! Small keyed tables: a vector of `(String, T)` pairs whose keys are distinct, seen
//! as a map from the key's characters to the value's view.
use vstd::prelude::*;
use crate::text::{chars_eq, chars_of};

verus! {

broadcast use vstd::string::group_string_axioms;

/// The entries of a table, each key and value taken by its view.
pub open spec fn view_entries<T: View>(v: Seq<(String, T)>) -> Seq<(Seq<char>, T::V)> {
    v.map_values(|e: (String, T)| (e.0@, e.1@))
}

/// No key occurs twice.
pub open spec fn keys_distinct<K, V>(s: Seq<(K, V)>) -> bool {
    forall|i: int, j: int| 0 <= i < j < s.len() ==> s[i].0 != s[j].0
}

/// The entries as a map from key to value.
pub open spec fn entries_map<K, V>(s: Seq<(K, V)>) -> Map<K, V> {
    Map::new(
        |k: K| exists|i: int| 0 <= i < s.len() && s[i].0 == k,
        |k: K| s[choose|i: int| 0 <= i < s.len() && s[i].0 == k].1,
    )
}

pub proof fn lemma_entry_at<K, V>(s: Seq<(K, V)>, i: int)
    requires
        keys_distinct(s),
        0 <= i < s.len(),
    ensures
        entries_map(s).dom().contains(s[i].0),
        entries_map(s)[s[i].0] == s[i].1,
{
    let k = s[i].0;
    assert(exists|j: int| 0 <= j < s.len() && s[j].0 == k);
    let c = choose|j: int| 0 <= j < s.len() && s[j].0 == k;
    if c != i {
        if c < i {
            assert(s[c].0 != s[i].0);
        } else {
            assert(s[i].0 != s[c].0);
        }
    }
}

pub proof fn lemma_update_entry<K, V>(s: Seq<(K, V)>, i: int, v: V)
    requires
        keys_distinct(s),
        0 <= i < s.len(),
    ensures
        keys_distinct(s.update(i, (s[i].0, v))),
        entries_map(s.update(i, (s[i].0, v))) == entries_map(s).insert(s[i].0, v),
{
    let t = s.update(i, (s[i].0, v));
    assert forall|a: int, b: int| 0 <= a < b < t.len() implies t[a].0 != t[b].0 by {
        assert(t[a].0 == s[a].0 && t[b].0 == s[b].0);
    }
    let m1 = entries_map(t);
    let m2 = entries_map(s).insert(s[i].0, v);
    assert forall|k: K| #[trigger] m1.dom().contains(k) == m2.dom().contains(k) by {
        if m2.dom().contains(k) && k != s[i].0 {
            let j = choose|j: int| 0 <= j < s.len() && s[j].0 == k;
            assert(t[j].0 == k);
        }
        if m1.dom().contains(k) {
            let j = choose|j: int| 0 <= j < t.len() && t[j].0 == k;
            assert(s[j].0 == k);
        }
        if k == s[i].0 {
            assert(t[i].0 == k);
        }
    }
    assert forall|k: K| #[trigger] m1.dom().contains(k) implies m1[k] == m2[k] by {
        let j = choose|j: int| 0 <= j < t.len() && t[j].0 == k;
        lemma_entry_at(t, j);
        if j != i {
            lemma_entry_at(s, j);
        }
    }
    assert(m1 =~= m2);
}

pub proof fn lemma_push_entry<K, V>(s: Seq<(K, V)>, k: K, v: V)
    requires
        keys_distinct(s),
        !entries_map(s).dom().contains(k),
    ensures
        keys_distinct(s.push((k, v))),
        entries_map(s.push((k, v))) == entries_map(s).insert(k, v),
{
    let t = s.push((k, v));
    assert forall|a: int, b: int| 0 <= a < b < t.len() implies t[a].0 != t[b].0 by {
        if b == s.len() {
            assert(t[a].0 == s[a].0);
            if s[a].0 == k {
                assert(entries_map(s).dom().contains(k));
            }
        }
    }
    let m1 = entries_map(t);
    let m2 = entries_map(s).insert(k, v);
    assert forall|x: K| #[trigger] m1.dom().contains(x) == m2.dom().contains(x) by {
        if m2.dom().contains(x) && x != k {
            let j = choose|j: int| 0 <= j < s.len() && s[j].0 == x;
            assert(t[j].0 == x);
        }
        if m1.dom().contains(x) && x != k {
            let j = choose|j: int| 0 <= j < t.len() && t[j].0 == x;
            assert(j < s.len());
            assert(s[j].0 == x);
        }
        if x == k {
            assert(t[s.len() as int].0 == k);
        }
    }
    assert forall|x: K| #[trigger] m1.dom().contains(x) implies m1[x] == m2[x] by {
        let j = choose|j: int| 0 <= j < t.len() && t[j].0 == x;
        lemma_entry_at(t, j);
        if j < s.len() {
            lemma_entry_at(s, j);
        }
    }
    assert(m1 =~= m2);
}

pub proof fn lemma_remove_entry<K, V>(s: Seq<(K, V)>, i: int)
    requires
        keys_distinct(s),
        0 <= i < s.len(),
    ensures
        keys_distinct(s.remove(i)),
        entries_map(s.remove(i)) == entries_map(s).remove(s[i].0),
{
    let t = s.remove(i);
    assert forall|a: int, b: int| 0 <= a < b < t.len() implies t[a].0 != t[b].0 by {
        let a2 = if a < i { a } else { a + 1 };
        let b2 = if b < i { b } else { b + 1 };
        assert(t[a] == s[a2] && t[b] == s[b2]);
    }
    let m1 = entries_map(t);
    let m2 = entries_map(s).remove(s[i].0);
    assert forall|x: K| #[trigger] m1.dom().contains(x) == m2.dom().contains(x) by {
        if m2.dom().contains(x) {
            let j = choose|j: int| 0 <= j < s.len() && s[j].0 == x;
            assert(j != i);
            let j2 = if j < i { j } else { j - 1 };
            assert(t[j2] == s[j]);
        }
        if m1.dom().contains(x) {
            let j = choose|j: int| 0 <= j < t.len() && t[j].0 == x;
            let j2 = if j < i { j } else { j + 1 };
            assert(t[j] == s[j2]);
            assert(j2 != i ==> s[j2].0 != s[i].0);
        }
    }
    assert forall|x: K| #[trigger] m1.dom().contains(x) implies m1[x] == m2[x] by {
        let j = choose|j: int| 0 <= j < t.len() && t[j].0 == x;
        let j2 = if j < i { j } else { j + 1 };
        assert(t[j] == s[j2]);
        lemma_entry_at(t, j);
        lemma_entry_at(s, j2);
    }
    assert(m1 =~= m2);
}

/// The entries whose value satisfies `keep`, in their order.
pub open spec fn kept_entries<K, V>(s: Seq<(K, V)>, keep: spec_fn(V) -> bool) -> Seq<(K, V)> {
    s.filter(|e: (K, V)| keep(e.1))
}

/// The map restricted to the keys whose value satisfies `keep`.
pub open spec fn kept_map<K, V>(m: Map<K, V>, keep: spec_fn(V) -> bool) -> Map<K, V> {
    Map::new(|k: K| m.dom().contains(k) && keep(m[k]), |k: K| m[k])
}

pub proof fn lemma_kept_entries<K, V>(s: Seq<(K, V)>, keep: spec_fn(V) -> bool)
    requires
        keys_distinct(s),
    ensures
        keys_distinct(kept_entries(s, keep)),
        entries_map(kept_entries(s, keep)) == kept_map(entries_map(s), keep),
    decreases s.len(),
{
    broadcast use vstd::seq_lib::group_filter_ensures;
    if s.len() == 0 {
        assert(kept_entries(s, keep) =~= Seq::<(K, V)>::empty());
        assert(entries_map(kept_entries(s, keep)) =~= kept_map(entries_map(s), keep));
    } else {
        let t = s.drop_last();
        let e = s.last();
        assert(s =~= t.push(e));
        assert(keys_distinct(t));
        lemma_kept_entries(t, keep);
        assert(!entries_map(t).dom().contains(e.0)) by {
            if entries_map(t).dom().contains(e.0) {
                let j = choose|j: int| 0 <= j < t.len() && t[j].0 == e.0;
                assert(s[j].0 == s[s.len() - 1].0);
            }
        }
        lemma_push_entry(t, e.0, e.1);
        let ft = kept_entries(t, keep);
        t.lemma_filter_push(e, |x: (K, V)| keep(x.1));
        assert(kept_entries(s, keep) == if keep(e.1) { ft.push(e) } else { ft });
        let mt = entries_map(t);
        if keep(e.1) {
            assert(!entries_map(ft).dom().contains(e.0));
            lemma_push_entry(ft, e.0, e.1);
            assert(kept_map(mt.insert(e.0, e.1), keep) =~= kept_map(mt, keep).insert(e.0, e.1));
        } else {
            assert(kept_map(mt.insert(e.0, e.1), keep) =~= kept_map(mt, keep));
        }
    }
}

/// The position of a key in a table whose keys are distinct.
pub fn key_position<T: View>(v: &Vec<(String, T)>, key: &Vec<char>) -> (r: Option<usize>)
    requires
        keys_distinct(view_entries(v@)),
    ensures
        match r {
            Some(i) => i < v@.len() && v@[i as int].0@ == key@,
            None => !entries_map(view_entries(v@)).dom().contains(key@),
        },
{
    let mut i: usize = 0;
    while i < v.len()
        invariant
            i <= v@.len(),
            forall|j: int| 0 <= j < i ==> v@[j].0@ != key@,
        decreases v.len() - i,
    {
        if chars_eq(&chars_of(v[i].0.as_str()), key) {
            return Some(i);
        }
        i += 1;
    }
    proof {
        let s = view_entries(v@);
        if entries_map(s).dom().contains(key@) {
            let j = choose|j: int| 0 <= j < s.len() && s[j].0 == key@;
            assert(v@[j].0@ == key@);
        }
    }
    None
}

/// The entries of a table keyed by integers, each value taken by its view.
pub open spec fn int_entries<T: View>(v: Seq<(i64, T)>) -> Seq<(i64, T::V)> {
    v.map_values(|e: (i64, T)| (e.0, e.1@))
}

/// The position of an integer key in a table whose keys are distinct.
pub fn int_key_position<T: View>(v: &Vec<(i64, T)>, key: i64) -> (r: Option<usize>)
    requires
        keys_distinct(int_entries(v@)),
    ensures
        match r {
            Some(i) => i < v@.len() && v@[i as int].0 == key,
            None => !entries_map(int_entries(v@)).dom().contains(key),
        },
{
    let mut i: usize = 0;
    while i < v.len()
        invariant
            i <= v@.len(),
            forall|j: int| 0 <= j < i ==> v@[j].0 != key,
        decreases v.len() - i,
    {
        if v[i].0 == key {
            return Some(i);
        }
        i += 1;
    }
    proof {
        let s = int_entries(v@);
        if entries_map(s).dom().contains(key) {
            let j = choose|j: int| 0 <= j < s.len() && s[j].0 == key;
            assert(v@[j].0 == key);
        }
    }
    None
}

} // verus!
