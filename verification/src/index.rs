//! Append-only per-owner lists of ids: the secondary indexes the contracts
//! keep (escrows by sender, recipient and driver; deliveries by sender and
//! recipient).

use std::collections::HashMap;
use vstd::prelude::*;
use crate::entries::{entries_of_map, lemma_listed_map, map_from_entries, map_of};
use crate::types::Addr;

verus! {

broadcast use vstd::std_specs::hash::group_hash_axioms;

/// The ids listed under `owner`; an owner never indexed has none.
pub open spec fn ids_of(m: Map<Addr, Seq<u64>>, owner: Addr) -> Seq<u64> {
    if m.contains_key(owner) {
        m[owner]
    } else {
        Seq::empty()
    }
}

/// Whether `owner`'s list in `m` can take `more` entries: list lengths are
/// `u32` counters.
pub open spec fn has_room(m: Map<Addr, Seq<u64>>, owner: Addr, more: int) -> bool {
    ids_of(m, owner).len() + more <= u32::MAX
}

/// `m` with `id` appended to `owner`'s list.
pub open spec fn with_pushed(m: Map<Addr, Seq<u64>>, owner: Addr, id: u64) -> Map<Addr, Seq<u64>> {
    m.insert(owner, ids_of(m, owner).push(id))
}

/// The window of `ids` that a page query returns: it starts at `offset` and
/// holds at most `limit` ids, never more than 100, the end computed in `u32`
/// arithmetic that saturates.
pub open spec fn page_of(ids: Seq<u64>, offset: u32, limit: u32) -> Seq<u64> {
    let len = ids.len() as int;
    let lim: int = if limit < 100 { limit as int } else { 100 };
    let reach: int = if offset + lim > u32::MAX { u32::MAX as int } else { offset + lim };
    let end: int = if len < reach { len } else { reach };
    let start: int = if (offset as int) < len { offset as int } else { len };
    ids.subrange(start, end)
}

/// The index that a list of `(owner, ids)` entries describes; of two
/// entries for one owner, the later counts.
pub open spec fn index_of_entries(entries: Seq<(Addr, Vec<u64>)>) -> Map<Addr, Seq<u64>> {
    map_of(entries).map_values(|v: Vec<u64>| v@)
}

/// Per-owner lists of ids, each kept in insertion order.
pub struct IdIndex {
    lists: HashMap<Addr, Vec<u64>>,
}

impl View for IdIndex {
    type V = Map<Addr, Seq<u64>>;

    closed spec fn view(&self) -> Map<Addr, Seq<u64>> {
        self.lists@.map_values(|v: Vec<u64>| v@)
    }
}

impl IdIndex {
    /// An index with no entries.
    pub fn new() -> (r: Self)
        ensures
            r@ == Map::<Addr, Seq<u64>>::empty(),
    {
        let r = IdIndex { lists: HashMap::new() };
        assert(r@ =~= Map::<Addr, Seq<u64>>::empty());
        r
    }

    /// The number of ids listed under `owner`.
    pub fn count(&self, owner: Addr) -> (r: usize)
        ensures
            r == ids_of(self@, owner).len(),
    {
        match self.lists.get(&owner) {
            Some(v) => v.len(),
            None => 0,
        }
    }

    /// Appends `id` to `owner`'s list.
    pub fn push(&mut self, owner: Addr, id: u64)
        requires
            has_room(old(self)@, owner, 1),
        ensures
            final(self)@ == with_pushed(old(self)@, owner, id),
    {
        let mut list = match self.lists.remove(&owner) {
            Some(v) => v,
            None => Vec::new(),
        };
        proof {
            assert(list@ == ids_of(old(self)@, owner));
        }
        list.push(id);
        self.lists.insert(owner, list);
        assert(self@ =~= with_pushed(old(self)@, owner, id));
    }

    /// All ids listed under `owner`, in insertion order.
    pub fn all(&self, owner: Addr) -> (r: Vec<u64>)
        ensures
            r@ == ids_of(self@, owner),
    {
        match self.lists.get(&owner) {
            Some(v) => v.clone(),
            None => Vec::new(),
        }
    }

    /// The page of `owner`'s list that starts at `offset` and holds at most
    /// `limit` (and never more than 100) ids.
    pub fn page(&self, owner: Addr, offset: u32, limit: u32) -> (r: Vec<u64>)
        ensures
            r@ == page_of(ids_of(self@, owner), offset, limit),
    {
        let mut out: Vec<u64> = Vec::new();
        match self.lists.get(&owner) {
            None => {
                assert(out@ =~= page_of(ids_of(self@, owner), offset, limit));
                out
            },
            Some(ids) => {
                let len = ids.len();
                let lim: u64 = if limit < 100 { limit as u64 } else { 100 };
                let reach: u64 = if offset as u64 + lim > u32::MAX as u64 {
                    u32::MAX as u64
                } else {
                    offset as u64 + lim
                };
                let end: usize = if (len as u64) < reach { len } else { reach as usize };
                let start: usize = if (offset as u64) < (len as u64) { offset as usize } else { len };
                let ghost want = page_of(ids@, offset, limit);
                assert(want =~= ids@.subrange(start as int, end as int));
                let mut i = start;
                while i < end
                    invariant
                        start <= i <= end <= len,
                        len == ids@.len(),
                        out@ =~= ids@.subrange(start as int, i as int),
                    decreases end - i,
                {
                    out.push(ids[i]);
                    i += 1;
                }
                out
            },
        }
    }

    /// The index described by `entries`.
    pub fn from_entries(entries: Vec<(Addr, Vec<u64>)>) -> (r: Self)
        ensures
            r@ == index_of_entries(entries@),
    {
        IdIndex { lists: map_from_entries(entries) }
    }

    /// The index written out as one entry per owner.
    pub fn into_entries(self) -> (r: Vec<(Addr, Vec<u64>)>)
        ensures
            index_of_entries(r@) == self@,
    {
        let ghost lists = self.lists@;
        let r = entries_of_map(self.lists);
        proof {
            lemma_listed_map(r@, lists);
        }
        r
    }
}

} // verus!
