//! A stack of `i32` values built from exclusively owned nodes.
//!
//! Every node is owned by its predecessor (or by the list itself, for the
//! head), so the chain forms a straight line of ownership with no sharing
//! and no cycles. Push and pop both work at the head in constant time, and
//! the list keeps an element count beside the chain.

use vstd::prelude::*;

verus! {

/// A chain link: either the end of the chain, or one more owned node.
#[derive(Debug)]
pub enum Link {
    Empty,
    More(Box<Node>),
}

/// One cell of the chain: a value and the link to its successor.
#[derive(Debug)]
pub struct Node {
    value: i32,
    next: Link,
}

/// A last-in-first-out stack of `i32` values over an owned node chain.
#[derive(Debug)]
pub struct List {
    head: Link,
    count: u32,
}

impl View for Link {
    type V = Seq<i32>;

    /// The elements reachable from this link, nearest first.
    closed spec fn view(&self) -> Seq<i32>
        decreases self,
    {
        match self {
            Link::Empty => Seq::empty(),
            Link::More(node) => seq![node.value] + node.next@,
        }
    }
}

impl View for List {
    type V = Seq<i32>;

    /// The stack's elements, top (most recently pushed) first.
    closed spec fn view(&self) -> Seq<i32> {
        self.head@
    }
}

impl List {
    /// Well-formedness: the maintained count agrees with the chain.
    pub closed spec fn wf(&self) -> bool {
        self.count == self@.len()
    }

    /// Creates an empty stack.
    pub fn new() -> (r: List)
        ensures
            r.wf(),
            r@ == Seq::<i32>::empty(),
    {
        List { head: Link::Empty, count: 0 }
    }

    /// The number of elements currently on the stack.
    pub fn len(&self) -> (r: u32)
        requires
            self.wf(),
        ensures
            r == self@.len(),
    {
        self.count
    }

    /// Pushes `value` on top of the stack.
    pub fn push(&mut self, value: i32)
        requires
            old(self).wf(),
            old(self)@.len() < u32::MAX,
        ensures
            final(self).wf(),
            final(self)@ == seq![value] + old(self)@,
    {
        let mut taken = Link::Empty;
        std::mem::swap(&mut self.head, &mut taken);
        let n = Node { value, next: taken };
        self.head = Link::More(Box::new(n));
        self.count = self.count + 1;
    }

    /// Removes and returns the top element; `None` exactly when the stack
    /// is empty, in which case the stack is left unchanged.
    pub fn pop(&mut self) -> (r: Option<i32>)
        requires
            old(self).wf(),
        ensures
            final(self).wf(),
            old(self)@.len() == 0 ==> r is None && final(self)@ == old(self)@,
            old(self)@.len() > 0 ==> r == Some(old(self)@[0]) && final(self)@ == old(self)@.drop_first(),
    {
        let mut taken = Link::Empty;
        std::mem::swap(&mut self.head, &mut taken);
        match taken {
            Link::Empty => None,
            Link::More(node) => {
                let node = *node;
                self.head = node.next;
                if self.count > 0 {
                    self.count = self.count - 1;
                }
                Some(node.value)
            },
        }
    }
}

impl Drop for List {
    /// Tears the chain down iteratively, head to tail. The default
    /// destruction of a `Box` chain would recurse once per node and
    /// exhaust the call stack on a long chain; this walk detaches each
    /// node's successor before the node itself is released.
    fn drop(&mut self)
        opens_invariants none
        no_unwind
    {
        let mut cur = Link::Empty;
        std::mem::swap(&mut self.head, &mut cur);
        loop
            decreases cur@.len(),
        {
            match cur {
                Link::Empty => {
                    break ;
                },
                Link::More(node) => {
                    let node = *node;
                    cur = node.next;
                },
            }
        }
    }
}

} // verus!
