//! Maps and sets keyed by `u64`, written out as plain lists and read back:
//! the form in which a contract's storage leaves the library and returns.

use std::collections::{HashMap, HashSet};
use vstd::prelude::*;
use vstd::std_specs::iter::IteratorSpec;

verus! {

broadcast use vstd::std_specs::hash::group_hash_axioms;

/// The map that a list of `(key, value)` entries describes; of two entries
/// for one key, the later counts.
pub open spec fn map_of<V>(entries: Seq<(u64, V)>) -> Map<u64, V>
    decreases entries.len(),
{
    if entries.len() == 0 {
        Map::empty()
    } else {
        map_of(entries.drop_last()).insert(entries.last().0, entries.last().1)
    }
}

/// Whether `entries` lists every key of `m` exactly once, with its value.
pub open spec fn lists_exactly<V>(entries: Seq<(u64, V)>, m: Map<u64, V>) -> bool {
    &&& entries.len() == m.dom().len()
    &&& forall|i: int, j: int|
        0 <= i < j < entries.len() ==> #[trigger] entries[i].0 != #[trigger] entries[j].0
    &&& forall|i: int|
        0 <= i < entries.len() ==> m.contains_key(#[trigger] entries[i].0) && m[entries[i].0]
            == entries[i].1
}

/// A list that names every key of a finite map once, with its value,
/// describes that map.
pub proof fn lemma_listed_map<V>(entries: Seq<(u64, V)>, m: Map<u64, V>)
    requires
        m.dom().finite(),
        lists_exactly(entries, m),
    ensures
        map_of(entries) == m,
    decreases entries.len(),
{
    if entries.len() == 0 {
        assert(m.dom() =~= Set::<u64>::empty());
        assert(map_of(entries) =~= m);
    } else {
        let (k, v) = entries.last();
        let rest = entries.drop_last();
        let smaller = m.remove(k);
        assert(m.contains_key(entries[entries.len() - 1].0));
        assert forall|i: int| 0 <= i < rest.len() implies smaller.contains_key(#[trigger] rest[i].0)
            && smaller[rest[i].0] == rest[i].1 by {
            assert(entries[i].0 != entries[entries.len() - 1].0);
        }
        assert forall|i: int, j: int| 0 <= i < j < rest.len() implies #[trigger] rest[i].0
            != #[trigger] rest[j].0 by {
            assert(entries[i].0 != entries[j].0);
        }
        lemma_listed_map(rest, smaller);
        assert(map_of(entries) =~= m);
    }
}

/// The map described by `entries`.
pub fn map_from_entries<V>(entries: Vec<(u64, V)>) -> (m: HashMap<u64, V>)
    ensures
        m@ == map_of(entries@),
{
    let ghost all = entries@;
    let mut m: HashMap<u64, V> = HashMap::new();
    for e in it: entries
        invariant
            it.seq() == all,
            m@ == map_of(all.take(it.index())),
    {
        let ghost i = it.index();
        assert(all.take(i + 1).drop_last() =~= all.take(i));
        m.insert(e.0, e.1);
    }
    assert(all.take(all.len() as int) =~= all);
    m
}

/// The entries of `m`, each key once, in no particular order.
pub fn entries_of_map<V>(m: HashMap<u64, V>) -> (r: Vec<(u64, V)>)
    ensures
        lists_exactly(r@, m@),
{
    let ghost orig = m@;
    let ghost listed = vstd::std_specs::hash::spec_keys_iter(&m).remaining();
    let mut keys: Vec<u64> = Vec::new();
    for k in it: m.keys()
        invariant
            it.seq() == listed,
            keys@ == it.seq().take(it.index()).map_values(|r: &u64| *r),
    {
        keys.push(*k);
    }
    let ghost ks = keys@;
    proof {
        assert(ks =~= listed.unref());
        assert(ks.no_duplicates());
        assert(ks.to_set() == orig.dom());
    }
    let mut m = m;
    let mut out: Vec<(u64, V)> = Vec::new();
    let n = keys.len();
    let mut idx: usize = 0;
    while idx < n
        invariant
            n == ks.len(),
            keys@ == ks,
            ks.no_duplicates(),
            ks.to_set() == orig.dom(),
            idx <= n,
            out@.len() == idx,
            forall|j: int| 0 <= j < idx ==> #[trigger] out@[j] == (ks[j], orig[ks[j]]),
            forall|j: int|
                idx <= j < n ==> m@.contains_key(#[trigger] ks[j]) && m@[ks[j]] == orig[ks[j]],
        decreases n - idx,
    {
        let k = keys[idx];
        match m.remove(&k) {
            Some(v) => {
                out.push((k, v));
            },
            None => {
                assert(false);
            },
        }
        idx += 1;
    }
    proof {
        assert forall|j: int| 0 <= j < n implies orig.contains_key(#[trigger] ks[j]) by {
            assert(ks.to_set().contains(ks[j]));
        }
        assert(orig.dom().finite());
    }
    out
}

/// The set of the ids in `list`.
pub fn set_from_list(list: Vec<u64>) -> (s: HashSet<u64>)
    ensures
        s@ == list@.to_set(),
{
    let ghost all = list@;
    let mut s: HashSet<u64> = HashSet::new();
    for x in it: list
        invariant
            it.seq() == all,
            s@ == all.take(it.index()).to_set(),
    {
        let ghost i = it.index();
        proof {
            assert(all.take(i + 1) =~= all.take(i).push(x));
            all.take(i).lemma_push_to_set_commute(x);
        }
        s.insert(x);
    }
    assert(all.take(all.len() as int) =~= all);
    s
}

/// The ids of `s`, each once, in no particular order.
pub fn list_of_set(s: &HashSet<u64>) -> (r: Vec<u64>)
    ensures
        r@.no_duplicates(),
        r@.to_set() == s@,
{
    let ghost listed = vstd::std_specs::hash::spec_hash_keys_iter(s).remaining();
    let mut out: Vec<u64> = Vec::new();
    for x in it: s.iter()
        invariant
            it.seq() == listed,
            out@ == it.seq().take(it.index()).map_values(|r: &u64| *r),
    {
        out.push(*x);
    }
    assert(out@ =~= listed.unref());
    out
}

} // verus!
