//! A generic list operated at its front.
//!
//! A doubly-linked layout would let this variant be walked from either end,
//! but only the front operations are part of its contract, and backward
//! links would add no observable behaviour — only a second link per node to
//! keep consistent. The chain is therefore held the plain way — each node
//! owned by its predecessor — with push and pop both at the head and a
//! maintained element count.

use vstd::prelude::*;

verus! {

/// A link to the rest of a chain: `None` at the end.
type ChainLink<T> = Option<Box<Node<T>>>;

/// One cell of the chain: a value and the link to its successor.
struct Node<T> {
    value: T,
    next: ChainLink<T>,
}

/// A list pushed and popped at its front.
pub struct List<T> {
    head: ChainLink<T>,
    count: u32,
}

/// The elements reachable from `link`, nearest first.
closed spec fn link_view<T>(link: ChainLink<T>) -> Seq<T>
    decreases link,
{
    match link {
        None => Seq::empty(),
        Some(node) => seq![node.value] + link_view(node.next),
    }
}

impl<T> View for List<T> {
    type V = Seq<T>;

    /// The list's elements, front first.
    closed spec fn view(&self) -> Seq<T> {
        link_view(self.head)
    }
}

impl<T> List<T> {
    /// Well-formedness: the maintained count agrees with the chain.
    pub closed spec fn wf(&self) -> bool {
        self.count == self@.len()
    }

    /// Creates an empty list.
    pub fn new() -> (r: List<T>)
        ensures
            r.wf(),
            r@ == Seq::<T>::empty(),
    {
        List { head: None, count: 0 }
    }

    /// The number of elements in the list.
    pub fn len(&self) -> (r: u32)
        requires
            self.wf(),
        ensures
            r == self@.len(),
    {
        self.count
    }

    /// Puts `elem` at the front of the list.
    pub fn push_front(&mut self, elem: T)
        requires
            old(self).wf(),
            old(self)@.len() < u32::MAX,
        ensures
            final(self).wf(),
            final(self)@ == seq![elem] + old(self)@,
    {
        self.count = self.count + 1;
        let taken = self.head.take();
        self.head = Some(Box::new(Node { value: elem, next: taken }));
    }

    /// Removes and returns the front element; `None` exactly when the list
    /// is empty, in which case the list is left unchanged.
    pub fn pop_front(&mut self) -> (r: Option<T>)
        requires
            old(self).wf(),
        ensures
            final(self).wf(),
            old(self)@.len() == 0 ==> r is None && final(self)@ == old(self)@,
            old(self)@.len() > 0 ==> r == Some(old(self)@[0]) && final(self)@ == old(self)@.drop_first(),
    {
        if self.count > 0 {
            self.count = self.count - 1;
        }
        match self.head.take() {
            None => None,
            Some(node) => {
                let node = *node;
                self.head = node.next;
                Some(node.value)
            },
        }
    }
}

impl<T> Drop for List<T> {
    /// Tears the chain down iteratively, head to tail. The default
    /// destruction of a `Box` chain would recurse once per node and
    /// exhaust the call stack on a long chain; this walk detaches each
    /// node's successor before the node itself is released.
    fn drop(&mut self)
        opens_invariants none
        no_unwind
    {
        let mut cur = None;
        std::mem::swap(&mut self.head, &mut cur);
        loop
            decreases link_view(cur).len(),
        {
            match cur {
                None => {
                    break ;
                },
                Some(node) => {
                    let node = *node;
                    cur = node.next;
                },
            }
        }
    }
}

} // verus!
