use vstd::prelude::*;
use std::collections::HashMap;
use vstd::std_specs::iter::IteratorSpec;

verus! {

broadcast use vstd::std_specs::hash::group_hash_axioms;

/// A map from 128-bit ids to values, over std's `HashMap`. It owns its
/// values; nothing outside it holds them.
#[derive(Debug, Clone)]
pub struct IdMap<V> {
    entries: HashMap<u128, V>,
}

impl<V> IdMap<V> {
    /// The map holds finitely many entries.
    pub closed spec fn wf(&self) -> bool {
        self.entries@.dom().finite()
    }

    pub closed spec fn view(&self) -> Map<u128, V> {
        self.entries@
    }

    pub fn new() -> (r: Self)
        ensures
            r.wf(),
            r.view() == Map::<u128, V>::empty(),
    {
        IdMap { entries: HashMap::new() }
    }

    pub fn len(&self) -> (r: usize)
        requires
            self.wf(),
        ensures
            r == self.view().len(),
    {
        self.entries.len()
    }

    /// Whether an entry exists for `id`.
    pub fn contains(&self, id: u128) -> (r: bool)
        requires
            self.wf(),
        ensures
            r == self.view().contains_key(id),
    {
        self.entries.contains_key(&id)
    }

    /// The value kept for `id`.
    pub fn get(&self, id: u128) -> (r: Option<&V>)
        requires
            self.wf(),
        ensures
            r.is_some() == self.view().contains_key(id),
            r matches Some(v) ==> *v == self.view()[id],
    {
        self.entries.get(&id)
    }

    /// Takes the entry for `id` out, if there is one.
    pub fn remove(&mut self, id: u128) -> (r: Option<V>)
        requires
            old(self).wf(),
        ensures
            final(self).wf(),
            final(self).view() == old(self).view().remove(id),
            r.is_some() == old(self).view().contains_key(id),
            r matches Some(v) ==> v == old(self).view()[id],
    {
        self.entries.remove(&id)
    }

    /// Keeps `value` for `id`, in place of any value kept for it before.
    pub fn insert(&mut self, id: u128, value: V)
        requires
            old(self).wf(),
        ensures
            final(self).wf(),
            final(self).view() == old(self).view().insert(id, value),
    {
        let _ = self.entries.insert(id, value);
    }

    /// The ids that have an entry, each once.
    pub fn ids(&self) -> (r: Vec<u128>)
        requires
            self.wf(),
        ensures
            r@.no_duplicates(),
            r@.to_set() == self.view().dom(),
    {
        let mut r: Vec<u128> = Vec::new();
        let keys = self.entries.keys();
        let ghost all = keys.remaining();
        for k in it: keys
            invariant
                it.seq() == all,
                r@ == all.take(it.index()).unref(),
        {
            r.push(*k);
            assert(r@ =~= all.take(it.index() + 1).unref());
        }
        assert(r@ =~= all.unref());
        r
    }
}

} // verus!
