use vstd::prelude::*;

use std::collections::HashMap;

verus! {

broadcast use vstd::std_specs::hash::group_hash_axioms;

/// The interval futures of a set of actors, each under the key it was
/// registered with. Keys are handed out in increasing order and never reused.
pub struct IntervalFutureSet<F> {
    next_key: usize,
    futures: HashMap<usize, F>,
}

impl<F> IntervalFutureSet<F> {
    /// The registered futures by key.
    pub closed spec fn view(&self) -> Map<usize, F> {
        self.futures@
    }

    /// The key that the next registration gets.
    pub closed spec fn spec_next_key(&self) -> usize {
        self.next_key
    }

    /// Every registered key was handed out before the next one.
    pub closed spec fn wf(&self) -> bool {
        forall|k: usize| #[trigger] self.futures@.contains_key(k) ==> k < self.next_key
    }

    /// An empty set whose first key is 0.
    pub fn new() -> (s: Self)
        ensures
            s.wf(),
            s.view() == Map::<usize, F>::empty(),
            s.spec_next_key() == 0,
    {
        IntervalFutureSet { next_key: 0, futures: HashMap::new() }
    }

    /// The key that the next registration gets.
    pub fn next_key(&self) -> (k: usize)
        ensures
            k == self.spec_next_key(),
    {
        self.next_key
    }

    /// Registers a future under a fresh key and returns the key.
    pub fn insert(&mut self, future: F) -> (key: usize)
        requires
            old(self).wf(),
            old(self).spec_next_key() < usize::MAX,
        ensures
            final(self).wf(),
            key == old(self).spec_next_key(),
            !old(self).view().contains_key(key),
            final(self).view() == old(self).view().insert(key, future),
            final(self).spec_next_key() == key + 1,
    {
        let key = self.next_key;
        self.next_key = key + 1;
        self.futures.insert(key, future);
        key
    }

    /// Removes the future under `key`, if any.
    pub fn remove(&mut self, key: usize)
        requires
            old(self).wf(),
        ensures
            final(self).wf(),
            final(self).view() == old(self).view().remove(key),
            final(self).spec_next_key() == old(self).spec_next_key(),
    {
        self.futures.remove(&key);
    }

    /// Takes the future under `key` out of the set to run it, if any.
    pub fn take(&mut self, key: usize) -> (f: Option<F>)
        requires
            old(self).wf(),
        ensures
            final(self).wf(),
            final(self).view() == old(self).view().remove(key),
            final(self).spec_next_key() == old(self).spec_next_key(),
            f == (if old(self).view().contains_key(key) {
                Some(old(self).view()[key])
            } else {
                None
            }),
            f is Some ==> key < final(self).spec_next_key(),
    {
        self.futures.remove(&key)
    }

    /// Puts a future that was taken out back under its key.
    pub fn restore(&mut self, key: usize, future: F)
        requires
            old(self).wf(),
            key < old(self).spec_next_key(),
        ensures
            final(self).wf(),
            final(self).view() == old(self).view().insert(key, future),
            final(self).spec_next_key() == old(self).spec_next_key(),
    {
        self.futures.insert(key, future);
    }

    /// Whether a future is registered under `key`.
    pub fn contains(&self, key: usize) -> (r: bool)
        ensures
            r == self.view().contains_key(key),
    {
        self.futures.contains_key(&key)
    }
}

/// Removing the key that a registration handed out undoes the registration.
pub proof fn law_remove_undoes_insert<F>(s: IntervalFutureSet<F>, f: F)
    requires
        s.wf(),
    ensures
        s.view().insert(s.spec_next_key(), f).remove(s.spec_next_key()) == s.view(),
{
    assert(!s.view().contains_key(s.spec_next_key()));
    assert(s.view().insert(s.spec_next_key(), f).remove(s.spec_next_key()) =~= s.view());
}

/// Putting back the future that was taken out restores the set.
pub proof fn law_restore_undoes_take<F>(s: IntervalFutureSet<F>, key: usize)
    requires
        s.wf(),
        s.view().contains_key(key),
    ensures
        s.view().remove(key).insert(key, s.view()[key]) == s.view(),
{
    assert(s.view().remove(key).insert(key, s.view()[key]) =~= s.view());
}

} // verus!
