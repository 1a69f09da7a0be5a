//! The state of the bounded queue: a fixed ring of slots, a head index and a
//! count of stored elements.

use crate::capacity::{
    effective_capacity, is_effective_capacity, is_power_of_two, lemma_min_capacity_is_power_of_two,
    lemma_next_power_of_two_unique, next_node_index, MAX_REQUEST, MIN_CAPACITY,
};
use vstd::prelude::*;
use vstd::std_specs::cmp::PartialEqSpec;

verus! {

/// Where the stored run starts and how long it is. The two move together, so
/// they are replaced as one value.
#[derive(Clone, Copy)]
struct Window {
    head: usize,
    len: usize,
}

/// A bounded FIFO over a ring of `capacity` slots, a power of two and at least
/// [`MIN_CAPACITY`]. The element at queue position `k` sits in slot
/// `(head + k) mod capacity`; the others are empty.
pub struct RingBuffer<T> {
    slots: Vec<Option<T>>,
    window: Window,
}

/// The head of a queue whose contents are `s`, if there is one.
pub open spec fn front<T>(s: Seq<T>) -> Option<T> {
    if s.len() == 0 {
        None
    } else {
        Some(s[0])
    }
}

/// Some element of `s` equals `v` by `T`'s equality.
pub open spec fn holds_equal<T: PartialEq>(s: Seq<T>, v: &T) -> bool {
    exists|i: int| 0 <= i < s.len() && (#[trigger] s[i]).eq_spec(v)
}

/// Scanning one element further: `v` is held in the first `k + 1` elements
/// exactly when it is held in the first `k` or equals element `k`.
pub proof fn lemma_holds_equal_step<T: PartialEq>(s: Seq<T>, k: int, v: &T)
    requires
        0 <= k < s.len(),
    ensures
        holds_equal(s.take(k + 1), v) == (holds_equal(s.take(k), v) || s[k].eq_spec(v)),
{
    let before = s.take(k);
    let after = s.take(k + 1);
    assert(after[k] == s[k]);
    assert forall|i: int| 0 <= i < k implies #[trigger] after[i] == before[i] by {}
    if holds_equal(before, v) {
        let i = choose|i: int| 0 <= i < before.len() && (#[trigger] before[i]).eq_spec(v);
        assert(after[i] == before[i]);
    }
}

/// What is held in a prefix of `s` is held in `s`, and the whole of `s` is
/// its own longest prefix.
pub proof fn lemma_holds_equal_prefix<T: PartialEq>(s: Seq<T>, k: int, v: &T)
    requires
        0 <= k <= s.len(),
    ensures
        holds_equal(s.take(k), v) ==> holds_equal(s, v),
        k == s.len() ==> holds_equal(s.take(k), v) == holds_equal(s, v),
{
    if holds_equal(s.take(k), v) {
        let i = choose|i: int| 0 <= i < k && (#[trigger] s.take(k)[i]).eq_spec(v);
        assert(s[i] == s.take(k)[i]);
    }
    if k == s.len() {
        assert(s.take(k) =~= s);
    }
}

/// Slot `k` places after `head` in a ring of `cap` slots, for `head, k < cap`.
spec fn ring_slot(head: int, cap: int, k: int) -> int {
    if head + k < cap {
        head + k
    } else {
        head + k - cap
    }
}

/// The `len` slots from `head` on, around the ring, all hold an element.
spec fn occupied<T>(slots: Seq<Option<T>>, head: int, len: int) -> bool {
    forall|k: int| 0 <= k < len ==> (#[trigger] slots[ring_slot(head, slots.len() as int, k)]) is Some
}

impl<T> View for RingBuffer<T> {
    type V = Seq<T>;

    /// The stored elements, oldest first.
    closed spec fn view(&self) -> Seq<T> {
        Seq::new(self.window.len as nat, |k: int| self.slots@[self.slot_of(k)]->0)
    }
}

impl<T> RingBuffer<T> {
    /// Number of slots.
    pub closed spec fn cap(&self) -> nat {
        self.slots@.len()
    }

    /// Slot of queue position `k`, for `0 <= k < cap`.
    closed spec fn slot_of(&self, k: int) -> int {
        ring_slot(self.window.head as int, self.cap() as int, k)
    }

    #[verifier::type_invariant]
    closed spec fn wf(&self) -> bool {
        &&& is_power_of_two(self.cap())
        &&& MIN_CAPACITY <= self.cap()
        &&& self.window.head < self.cap()
        &&& self.window.len <= self.cap()
        &&& occupied(self.slots@, self.window.head as int, self.window.len as int)
    }

    /// An empty queue with room for `requested` elements, rounded up to a power
    /// of two and to at least [`MIN_CAPACITY`].
    pub fn with_capacity(requested: usize) -> (q: Self)
        requires
            requested <= MAX_REQUEST,
        ensures
            is_effective_capacity(requested as nat, q.cap()),
            q@ == Seq::<T>::empty(),
    {
        let cap = effective_capacity(requested);
        let mut slots: Vec<Option<T>> = Vec::with_capacity(cap);
        let mut i: usize = 0;
        while i < cap
            invariant
                slots@.len() == i,
                i <= cap,
            decreases cap - i,
        {
            slots.push(None);
            i = i + 1;
        }
        let q = RingBuffer { slots, window: Window { head: 0, len: 0 } };
        assert(q@ =~= Seq::<T>::empty());
        q
    }

    /// An empty queue of [`MIN_CAPACITY`] slots.
    pub fn new() -> (q: Self)
        ensures
            q.cap() == MIN_CAPACITY,
            q@ == Seq::<T>::empty(),
    {
        let q = Self::with_capacity(MIN_CAPACITY);
        proof {
            lemma_min_capacity_is_power_of_two();
            lemma_next_power_of_two_unique(MIN_CAPACITY as nat, q.cap(), MIN_CAPACITY as nat);
        }
        q
    }

    /// Number of slots.
    pub fn capacity(&self) -> (r: usize)
        ensures
            r == self.cap(),
    {
        self.slots.len()
    }

    /// Number of stored elements.
    pub fn len(&self) -> (r: usize)
        ensures
            r == self@.len(),
            self@.len() <= self.cap(),
    {
        proof {
            use_type_invariant(self);
        }
        self.window.len
    }

    /// Whether nothing is stored.
    pub fn is_empty(&self) -> (r: bool)
        ensures
            r == (self@.len() == 0),
            self@.len() <= self.cap(),
    {
        proof {
            use_type_invariant(self);
        }
        self.window.len == 0
    }

    /// Whether every slot is taken.
    pub fn is_full(&self) -> (r: bool)
        ensures
            r == (self@.len() == self.cap()),
            self@.len() <= self.cap(),
    {
        proof {
            use_type_invariant(self);
        }
        self.window.len == self.slots.len()
    }

    /// Number of elements that can still be stored.
    pub fn remaining_capacity(&self) -> (r: usize)
        ensures
            r == self.cap() - self@.len(),
    {
        proof {
            use_type_invariant(self);
        }
        self.slots.len() - self.window.len
    }

    /// Appends `v` at the tail. The caller has checked that there is room.
    pub fn push(&mut self, v: T)
        requires
            old(self)@.len() < old(self).cap(),
        ensures
            final(self)@ == old(self)@.push(v),
            final(self).cap() == old(self).cap(),
    {
        proof {
            use_type_invariant(&*self);
        }
        let cap = self.slots.len();
        let w = self.window;
        let tail = if w.head < cap - w.len {
            w.head + w.len
        } else {
            w.head - (cap - w.len)
        };
        assert(tail == self.slot_of(w.len as int));
        let ghost filled = self.slots@.update(tail as int, Some(v));
        assert(occupied(filled, w.head as int, w.len + 1)) by {
            assert forall|k: int| 0 <= k < w.len + 1 implies (#[trigger] filled[ring_slot(w.head as int, filled.len() as int, k)]) is Some by {
                if k < w.len {
                    assert(self.slots@[self.slot_of(k)] is Some);
                }
            }
        }
        self.slots[tail] = Some(v);
        assert(self.slots@ == filled);
        self.window = Window { head: w.head, len: w.len + 1 };
        assert(self@ =~= old(self)@.push(v));
    }

    /// Removes and returns the head. The caller has checked that there is one.
    pub fn pop(&mut self) -> (r: T)
        requires
            old(self)@.len() > 0,
        ensures
            r == old(self)@[0],
            final(self)@ == old(self)@.drop_first(),
            final(self).cap() == old(self).cap(),
    {
        proof {
            use_type_invariant(&*self);
        }
        let cap = self.slots.len();
        let w = self.window;
        assert(self.slot_of(0) == w.head);
        assert(self.slots@[w.head as int] is Some);
        let next = next_node_index(w.head, cap - 1);
        assert(next == self.slot_of(1)) by {
            if w.head + 1 == cap {
                vstd::arithmetic::div_mod::lemma_mod_self_0(cap as int);
            } else {
                vstd::arithmetic::div_mod::lemma_small_mod((w.head + 1) as nat, cap as nat);
            }
        }
        let ghost slots = self.slots@;
        let ghost emptied = slots.update(w.head as int, None);
        assert(occupied(slots, next as int, w.len - 1)) by {
            assert forall|k: int| 0 <= k < w.len - 1 implies (#[trigger] slots[ring_slot(next as int, slots.len() as int, k)]) is Some by {
                assert(ring_slot(next as int, cap as int, k) == self.slot_of(k + 1));
            }
        }
        assert(occupied(emptied, next as int, w.len - 1)) by {
            assert forall|k: int| 0 <= k < w.len - 1 implies (#[trigger] emptied[ring_slot(next as int, emptied.len() as int, k)]) is Some by {
                assert(ring_slot(next as int, cap as int, k) == self.slot_of(k + 1));
                assert(slots[ring_slot(next as int, slots.len() as int, k)] is Some);
            }
        }
        self.window = Window { head: next, len: w.len - 1 };
        let mut slot: Option<T> = None;
        std::mem::swap(&mut self.slots[w.head], &mut slot);
        assert(self.slots@ == emptied);
        assert(slot == slots[w.head as int]);
        assert(self@ =~= old(self)@.drop_first());
        slot.unwrap()
    }

    /// Appends `v` if there is room; a full queue is left as it was and `v`
    /// is dropped.
    pub fn offer(&mut self, v: T) -> (r: bool)
        ensures
            r == (old(self)@.len() < old(self).cap()),
            r ==> final(self)@ == old(self)@.push(v),
            !r ==> final(self)@ == old(self)@,
            final(self).cap() == old(self).cap(),
    {
        proof {
            use_type_invariant(&*self);
        }
        if self.is_full() {
            false
        } else {
            self.push(v);
            true
        }
    }
}

impl<T: Copy> RingBuffer<T> {
    /// A copy of the head, if there is one; the queue is not changed.
    pub fn peek(&self) -> (r: Option<T>)
        ensures
            r == front(self@),
    {
        proof {
            use_type_invariant(self);
        }
        if self.window.len == 0 {
            None
        } else {
            assert(self.slot_of(0) == self.window.head);
            match &self.slots[self.window.head] {
                Some(x) => Some(*x),
                None => None,
            }
        }
    }
}

impl<T: PartialEq> RingBuffer<T> {
    /// Whether some stored element equals `v`.
    pub fn contains(&self, v: &T) -> (r: bool)
        ensures
            T::obeys_eq_spec() ==> (r == holds_equal(self@, v)),
    {
        proof {
            use_type_invariant(self);
        }
        let cap = self.slots.len();
        let len = self.window.len;
        let mut idx = self.window.head;
        let mut k: usize = 0;
        let mut found = false;
        while k < len && !found
            invariant
                self.wf(),
                cap == self.cap(),
                len == self@.len(),
                k <= len,
                len <= cap,
                idx == self.slot_of(k as int),
                idx < cap,
                T::obeys_eq_spec() ==> (found == holds_equal(self@.take(k as int), v)),
            decreases len - k,
        {
            let hit = match &self.slots[idx] {
                Some(x) => x.eq(v),
                None => false,
            };
            assert(self.slots@[idx as int] == Some(self@[k as int]));
            proof {
                lemma_holds_equal_step(self@, k as int, v);
            }
            found = hit;
            let ghost before_idx = idx;
            idx = next_node_index(idx, cap - 1);
            proof {
                if before_idx + 1 == cap {
                    vstd::arithmetic::div_mod::lemma_mod_self_0(cap as int);
                } else {
                    vstd::arithmetic::div_mod::lemma_small_mod((before_idx + 1) as nat, cap as nat);
                }
            }
            k = k + 1;
        }
        proof {
            lemma_holds_equal_prefix(self@, k as int, v);
        }
        found
    }
}

} // verus!
