//! A set of promise ids, kept in a `HashSet`.
use vstd::prelude::*;
use std::collections::HashSet;

verus! {

broadcast use vstd::std_specs::hash::group_hash_axioms;

/// A finite set of ids.
#[derive(Debug)]
pub struct IdSet {
    ids: HashSet<u64>,
}

impl IdSet {
    pub closed spec fn view(&self) -> Set<u64> {
        self.ids@
    }

    pub fn new() -> (r: Self)
        ensures
            r.view() == Set::<u64>::empty(),
    {
        IdSet { ids: HashSet::new() }
    }

    /// The number of ids.
    pub fn len(&self) -> (r: usize)
        ensures
            r == self.view().len(),
    {
        self.ids.len()
    }

    /// Whether there is no id.
    pub fn is_empty(&self) -> (r: bool)
        ensures
            r == (self.view() == Set::<u64>::empty()),
    {
        let r = self.ids.is_empty();
        proof {
            if !r {
                let x = self.ids@.choose();
                assert(self.ids@.contains(x));
            } else {
                assert(self.ids@ =~= Set::<u64>::empty());
            }
        }
        r
    }

    /// Whether `id` is in the set.
    pub fn contains(&self, id: u64) -> (r: bool)
        ensures
            r == self.view().contains(id),
    {
        self.ids.contains(&id)
    }

    /// Adds `id`; an id already present stays once.
    pub fn insert(&mut self, id: u64)
        ensures
            final(self).view() == old(self).view().insert(id),
    {
        self.ids.insert(id);
    }

    /// Removes `id`; returns whether it was present.
    pub fn remove(&mut self, id: u64) -> (r: bool)
        ensures
            r == old(self).view().contains(id),
            final(self).view() == old(self).view().remove(id),
    {
        self.ids.remove(&id)
    }

    /// Empties the set and returns its ids, each once, in unspecified order.
    pub fn drain(&mut self) -> (r: Vec<u64>)
        ensures
            final(self).view() == Set::<u64>::empty(),
            r@.to_set() == old(self).view(),
            r@.no_duplicates(),
    {
        let mut out: Vec<u64> = Vec::new();
        let ghost keys = vstd::std_specs::iter::IteratorSpec::remaining(&vstd::std_specs::hash::spec_hash_keys_iter(&self.ids));
        for k in it: self.ids.iter()
            invariant
                it.seq() == keys,
                out@.len() == it.index(),
                forall|i: int| 0 <= i < out@.len() ==> out@[i] == *keys[i],
        {
            out.push(*k);
        }
        proof {
            assert(out@ =~= keys.unref());
        }
        self.ids.clear();
        out
    }
}

} // verus!
