//! The state of the unbounded queue: the stored elements, oldest first.
//!
//! The chain of nodes behind the unbounded queue is held as a `VecDeque`:
//! appending at the tail and taking from the head are both constant time, and
//! no node is ever shared between two owners.

use crate::ring::{front, holds_equal, lemma_holds_equal_prefix, lemma_holds_equal_step};
use std::collections::VecDeque;
use vstd::prelude::*;
use vstd::std_specs::cmp::PartialEqSpec;

verus! {

/// An unbounded FIFO.
pub struct Fifo<T> {
    items: VecDeque<T>,
}

impl<T> View for Fifo<T> {
    type V = Seq<T>;

    /// The stored elements, oldest first.
    closed spec fn view(&self) -> Seq<T> {
        self.items@
    }
}

impl<T> Fifo<T> {
    /// An empty queue.
    pub fn new() -> (q: Self)
        ensures
            q@ == Seq::<T>::empty(),
    {
        Fifo { items: VecDeque::new() }
    }

    /// Number of stored elements.
    pub fn len(&self) -> (r: usize)
        ensures
            r == self@.len(),
    {
        self.items.len()
    }

    /// Whether nothing is stored.
    pub fn is_empty(&self) -> (r: bool)
        ensures
            r == (self@.len() == 0),
    {
        self.items.len() == 0
    }

    /// Appends `v` at the tail.
    pub fn push(&mut self, v: T)
        ensures
            final(self)@ == old(self)@.push(v),
    {
        self.items.push_back(v);
    }

    /// Removes and returns the head. The caller has checked that there is one.
    pub fn pop(&mut self) -> (r: T)
        requires
            old(self)@.len() > 0,
        ensures
            r == old(self)@[0],
            final(self)@ == old(self)@.drop_first(),
    {
        let r = self.items.pop_front();
        assert(self@ =~= old(self)@.drop_first());
        r.unwrap()
    }
}

impl<T: Copy> Fifo<T> {
    /// A copy of the head, if there is one; the queue is not changed.
    pub fn peek(&self) -> (r: Option<T>)
        ensures
            r == front(self@),
    {
        if self.items.len() == 0 {
            None
        } else {
            Some(self.items[0])
        }
    }
}

impl<T: PartialEq> Fifo<T> {
    /// Whether some stored element equals `v`.
    pub fn contains(&self, v: &T) -> (r: bool)
        ensures
            T::obeys_eq_spec() ==> (r == holds_equal(self@, v)),
    {
        let len = self.items.len();
        let mut k: usize = 0;
        let mut found = false;
        while k < len && !found
            invariant
                len == self@.len(),
                k <= len,
                T::obeys_eq_spec() ==> (found == holds_equal(self@.take(k as int), v)),
            decreases len - k,
        {
            let hit = self.items[k].eq(v);
            proof {
                lemma_holds_equal_step(self@, k as int, v);
            }
            found = hit;
            k = k + 1;
        }
        proof {
            lemma_holds_equal_prefix(self@, k as int, v);
        }
        found
    }
}

} // verus!
