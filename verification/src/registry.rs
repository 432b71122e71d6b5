//! A keyed set of subscribers, and what it takes to have one.

use std::collections::HashMap;
use vstd::prelude::*;
use vstd::std_specs::hash::spec_hash_map_iter;
use vstd::std_specs::iter::IteratorSpec;

verus! {

broadcast use vstd::std_specs::hash::group_hash_axioms;

/// A set of subscribers, each registered under a handle of its own.
///
/// Handles are handed out in increasing order and never used twice, also not
/// after the subscriber they were given to has left.
pub struct ObserverSet<O> {
    next_id: usize,
    observers: HashMap<usize, O>,
}

impl<O> ObserverSet<O> {
    /// The subscribers by handle.
    pub closed spec fn entries(&self) -> Map<usize, O> {
        self.observers@
    }

    /// The handle that the next subscriber will get.
    pub closed spec fn next_handle(&self) -> usize {
        self.next_id
    }

    /// Every handle in use was handed out before, so that the next one is
    /// new.
    pub closed spec fn wf(&self) -> bool {
        forall|id: usize| #[trigger] self.observers@.contains_key(id) ==> id < self.next_id
    }

    /// The set is as it was made: nobody has ever subscribed.
    pub open spec fn unused(&self) -> bool {
        &&& self.wf()
        &&& self.entries() == Map::<usize, O>::empty()
        &&& self.next_handle() == 0
    }

    /// In a well-formed set no subscriber has the next handle, or a later one.
    pub proof fn lemma_handles_below_next(&self, id: usize)
        requires
            self.wf(),
            self.entries().contains_key(id),
        ensures
            id < self.next_handle(),
    {
    }

    /// A set without subscribers, whose first handle will be 0.
    pub fn new() -> (set: ObserverSet<O>)
        ensures
            set.unused(),
    {
        ObserverSet { next_id: 0, observers: HashMap::new() }
    }

    /// The number of subscribers.
    pub fn len(&self) -> (len: usize)
        ensures
            len == self.entries().len(),
    {
        self.observers.len()
    }

    /// The handle that the next subscriber will get.
    pub fn next_id(&self) -> (id: usize)
        ensures
            id == self.next_handle(),
    {
        self.next_id
    }

    /// Whether a subscriber is registered under `id`.
    pub fn contains(&self, id: &usize) -> (found: bool)
        ensures
            found == self.entries().contains_key(*id),
    {
        self.observers.contains_key(id)
    }

    /// The subscriber registered under `id`, if there is one.
    pub fn get(&self, id: &usize) -> (observer: Option<&O>)
        ensures
            match observer {
                Some(observer) => self.entries().contains_key(*id) && *observer
                    == self.entries()[*id],
                None => !self.entries().contains_key(*id),
            },
    {
        self.observers.get(id)
    }

    /// Registers `observer` and returns its handle: the next in order, which
    /// no subscriber has had before.
    pub fn insert(&mut self, observer: O) -> (id: usize)
        requires
            old(self).wf(),
            old(self).next_handle() < usize::MAX,
        ensures
            final(self).wf(),
            id == old(self).next_handle(),
            !old(self).entries().contains_key(id),
            final(self).entries() == old(self).entries().insert(id, observer),
            final(self).next_handle() == id + 1,
    {
        let id = self.next_id;
        self.next_id = self.next_id + 1;
        self.observers.insert(id, observer);
        assert forall|k: usize| #[trigger] self.observers@.contains_key(k) implies k
            < self.next_id by {}
        id
    }

    /// Takes the subscriber with handle `id` out. An unknown handle changes
    /// nothing.
    pub fn remove(&mut self, id: &usize)
        requires
            old(self).wf(),
        ensures
            final(self).wf(),
            final(self).entries() == old(self).entries().remove(*id),
            final(self).next_handle() == old(self).next_handle(),
    {
        self.observers.remove(id);
        assert forall|k: usize| #[trigger] self.observers@.contains_key(k) implies k
            < self.next_id by {}
    }

    /// Calls `function` on every subscriber, in no particular order.
    pub fn notify<F: Fn(&O)>(&self, function: F)
        requires
            forall|id: usize| #[trigger]
                self.entries().contains_key(id) ==> call_requires(function, (&self.entries()[id],)),
        ensures
            forall|id: usize| #[trigger]
                self.entries().contains_key(id) ==> call_ensures(
                    function,
                    (&self.entries()[id],),
                    (),
                ),
    {
        let ghost all = spec_hash_map_iter(&self.observers).remaining();
        for pair in it: self.observers.iter()
            invariant
                it.seq() == all,
                all == spec_hash_map_iter(&self.observers).remaining(),
                forall|id: usize| #[trigger]
                    self.entries().contains_key(id) ==> call_requires(
                        function,
                        (&self.entries()[id],),
                    ),
                forall|i: int|
                    0 <= i < it.index() ==> call_ensures(function, (#[trigger] all[i].1,), ()),
        {
            assert(self.entries().contains_key(*pair.0) && self.entries()[*pair.0] == *pair.1);
            function(pair.1);
        }
        assert forall|id: usize| #[trigger] self.entries().contains_key(id) implies call_ensures(
            function,
            (&self.entries()[id],),
            (),
        ) by {
            let i = choose|i: int| 0 <= i < all.len() && all[i] == (&id, &self.entries()[id]);
            assert(call_ensures(function, (all[i].1,), ()));
        }
    }
}

/// Something that keeps a set of subscribers of type `O`.
pub trait Observable<O> {
    /// The subscribers that the value keeps.
    spec fn observer_set(&self) -> ObserverSet<O>;

    /// Whether `self` and `other` hold the same but for their subscribers.
    spec fn same_state(&self, other: &Self) -> bool;

    /// The subscribers, to add one or to take one out.
    fn observers(&mut self) -> (set: &mut ObserverSet<O>)
        ensures
            *set == old(self).observer_set(),
            final(self).observer_set() == *final(set),
            final(self).same_state(old(self)),
    ;

    /// Registers `observer` and returns the handle under which it can be
    /// taken out again.
    fn register_observer(&mut self, observer: O) -> (id: usize)
        requires
            old(self).observer_set().wf(),
            old(self).observer_set().next_handle() < usize::MAX,
        ensures
            final(self).observer_set().wf(),
            id == old(self).observer_set().next_handle(),
            !old(self).observer_set().entries().contains_key(id),
            final(self).observer_set().entries() == old(self).observer_set().entries().insert(
                id,
                observer,
            ),
            final(self).observer_set().next_handle() == id + 1,
            final(self).same_state(old(self)),
    {
        self.observers().insert(observer)
    }

    /// Takes the subscriber with handle `id` out. An unknown handle changes
    /// nothing.
    fn deregister_observer(&mut self, id: &usize)
        requires
            old(self).observer_set().wf(),
        ensures
            final(self).observer_set().wf(),
            final(self).observer_set().entries() == old(self).observer_set().entries().remove(*id),
            final(self).observer_set().next_handle() == old(self).observer_set().next_handle(),
            final(self).same_state(old(self)),
    {
        self.observers().remove(id);
    }
}

} // verus!
