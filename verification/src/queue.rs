//! A first-in-first-out queue with a cached reference to its last node.
//!
//! The chain lives in an arena of slots: the node in slot `i` has the node
//! in slot `i + 1` as its successor, the head of the chain sits at `start`,
//! and `tail` is a non-owning reference — a bare index — to the last node,
//! which is what makes append constant-time. The tail reference must be
//! kept consistent by every mutation: it is `None` exactly when the queue
//! is empty, and names the last node otherwise, so it can never be left
//! behind pointing at a released slot. Slots before `start` are spent;
//! they are reclaimed in one stroke each time the queue drains, which also
//! clears the tail reference.

use vstd::prelude::*;

verus! {

/// A first-in-first-out queue: elements enter at the tail and leave at the
/// head, in arrival order.
pub struct List<T> {
    slots: Vec<Option<T>>,
    start: usize,
    tail: Option<usize>,
    count: u32,
}

impl<T> View for List<T> {
    type V = Seq<T>;

    /// The queue's elements, oldest (next to leave) first.
    closed spec fn view(&self) -> Seq<T> {
        self.slots@.skip(self.start as int).map_values(|slot: Option<T>| slot->0)
    }
}

impl<T> List<T> {
    /// Well-formedness: every slot from `start` on holds a node, the
    /// maintained count agrees with the chain, and the tail reference is
    /// empty exactly when the queue is, and names the last node otherwise.
    pub closed spec fn wf(&self) -> bool {
        &&& self.start <= self.slots@.len()
        &&& forall|i: int| self.start <= i < self.slots@.len() ==> (#[trigger] self.slots@[i]) is Some
        &&& self.count == self.slots@.len() - self.start
        &&& match self.tail {
            None => self.start == self.slots@.len(),
            Some(t) => self.start < self.slots@.len() && t == self.slots@.len() - 1,
        }
    }

    /// Creates an empty queue.
    pub fn new() -> (r: List<T>)
        ensures
            r.wf(),
            r@ == Seq::<T>::empty(),
    {
        let r = List { slots: Vec::new(), start: 0, tail: None, count: 0 };
        proof {
            assert(r@ =~= Seq::<T>::empty());
        }
        r
    }

    /// The number of elements in the queue.
    pub fn len(&self) -> (r: u32)
        requires
            self.wf(),
        ensures
            r == self@.len(),
    {
        self.count
    }

    /// Puts `elem` behind the current last element: the tail reference,
    /// when there is one, leads straight to the last node, so nothing has
    /// to walk the chain. The new node becomes the tail.
    pub fn push(&mut self, elem: T)
        requires
            old(self).wf(),
            old(self)@.len() < u32::MAX,
        ensures
            final(self).wf(),
            final(self)@ == old(self)@.push(elem),
    {
        self.slots.push(Some(elem));
        self.tail = Some(self.slots.len() - 1);
        self.count = self.count + 1;
        proof {
            assert(final(self)@ =~= old(self)@.push(elem));
        }
    }

    /// Removes and returns the oldest element; `None` exactly when the
    /// queue is empty, in which case the queue is left unchanged. When the
    /// last element leaves, the tail reference is cleared with it, so it
    /// never points at a released slot.
    pub fn pop(&mut self) -> (r: Option<T>)
        requires
            old(self).wf(),
        ensures
            final(self).wf(),
            old(self)@.len() == 0 ==> r is None && final(self)@ == old(self)@,
            old(self)@.len() > 0 ==> r == Some(old(self)@[0]) && final(self)@ == old(self)@.drop_first(),
    {
        if self.start == self.slots.len() {
            return None;
        }
        let mut taken: Option<T> = None;
        std::mem::swap(&mut self.slots[self.start], &mut taken);
        self.start = self.start + 1;
        if self.start == self.slots.len() {
            self.slots.clear();
            self.start = 0;
            self.tail = None;
        }
        if self.count > 0 {
            self.count = self.count - 1;
        }
        proof {
            assert(final(self)@ =~= old(self)@.drop_first());
        }
        Some(taken.unwrap())
    }
}

} // verus!
