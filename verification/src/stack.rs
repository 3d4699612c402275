//! A generic stack over exclusively owned nodes, with peeking and traversal.
//!
//! The shape is the same as [`crate::basic_stack`]: a chain of nodes, each
//! owned by its predecessor, pushed and popped at the head, with a
//! maintained element count. This variant is generic over the element type
//! and adds read-only and consuming traversal of the chain.

use vstd::prelude::*;

verus! {

/// A link to the rest of a chain: `None` at the end.
type ChainLink<T> = Option<Box<Node<T>>>;

/// One cell of the chain: a value and the link to its successor.
#[derive(Debug)]
pub struct Node<T> {
    value: T,
    next: ChainLink<T>,
}

/// A last-in-first-out stack over an owned node chain.
#[derive(Debug)]
pub struct List<T> {
    head: ChainLink<T>,
    count: u32,
}

/// The elements reachable from `link`, nearest first.
pub closed spec fn link_view<T>(link: ChainLink<T>) -> Seq<T>
    decreases link,
{
    match link {
        None => Seq::empty(),
        Some(node) => seq![node.value] + link_view(node.next),
    }
}

impl<T> View for List<T> {
    type V = Seq<T>;

    /// The stack's elements, top (most recently pushed) first.
    closed spec fn view(&self) -> Seq<T> {
        link_view(self.head)
    }
}

/// The sequence a stack holds after one push: the value in front of the rest.
pub open spec fn pushed<T>(s: Seq<T>, value: T) -> Seq<T> {
    seq![value] + s
}

impl<T> List<T> {
    /// Well-formedness: the maintained count agrees with the chain.
    pub closed spec fn wf(&self) -> bool {
        self.count == self@.len()
    }

    /// Creates an empty stack.
    pub fn new() -> (r: List<T>)
        ensures
            r.wf(),
            r@ == Seq::<T>::empty(),
    {
        List { head: None, count: 0 }
    }

    /// The number of elements currently on the stack.
    pub fn len(&self) -> (r: u32)
        requires
            self.wf(),
        ensures
            r == self@.len(),
    {
        self.count
    }

    /// Pushes `value` on top of the stack.
    pub fn push(&mut self, value: T)
        requires
            old(self).wf(),
            old(self)@.len() < u32::MAX,
        ensures
            final(self).wf(),
            final(self)@ == pushed(old(self)@, value),
    {
        let taken = self.head.take();
        let n = Node { value, next: taken };
        self.head = Some(Box::new(n));
        self.count = self.count + 1;
    }

    /// Removes and returns the top element; `None` exactly when the stack
    /// is empty, in which case the stack is left unchanged.
    pub fn pop(&mut self) -> (r: Option<T>)
        requires
            old(self).wf(),
        ensures
            final(self).wf(),
            old(self)@.len() == 0 ==> r is None && final(self)@ == old(self)@,
            old(self)@.len() > 0 ==> r == Some(old(self)@[0]) && final(self)@ == old(self)@.drop_first(),
    {
        match self.head.take() {
            None => None,
            Some(node) => {
                let node = *node;
                self.head = node.next;
                if self.count > 0 {
                    self.count = self.count - 1;
                }
                Some(node.value)
            },
        }
    }

    /// A read-only borrow of the top element; `None` exactly when empty.
    pub fn peek(&self) -> (r: Option<&T>)
        ensures
            self@.len() == 0 ==> r is None,
            self@.len() > 0 ==> (r matches Some(v) && *v == self@[0]),
    {
        match &self.head {
            None => None,
            Some(node) => Some(&node.value),
        }
    }

    /// Consumes the stack, yielding a traversal that hands the elements
    /// out by value, top first.
    pub fn into_iter(self) -> (r: IntoIter<T>)
        requires
            self.wf(),
        ensures
            r.wf(),
            r@ == self@,
    {
        IntoIter(self)
    }

    /// A read-only traversal of the elements, top first. Any number of
    /// such traversals may run over the same stack at once.
    pub fn iter<'a>(&'a self) -> (r: Iter<'a, T>)
        ensures
            r@ == self@,
    {
        Iter {
            next: match &self.head {
                None => None,
                Some(node) => Some(&**node),
            },
        }
    }

    /// A mutable traversal of the elements, top first. The traversal owns
    /// the borrow of the whole chain while it lives, so the values it
    /// hands out may be rewritten in place.
    pub fn iter_mut<'a>(&'a mut self) -> (r: IterMut<'a, T>)
        ensures
            r@ == old(self)@,
    {
        IterMut {
            next: match &mut self.head {
                None => None,
                Some(node) => Some(&mut **node),
            },
        }
    }

    /// A mutable borrow of the top element; `None` exactly when empty.
    /// Whatever the caller writes through the borrow becomes the new top.
    pub fn peek_mut(&mut self) -> (r: Option<&mut T>)
        requires
            old(self).wf(),
        ensures
            old(self)@.len() == 0 ==> r is None && *final(self) == *old(self),
            old(self)@.len() > 0 ==> (r matches Some(v) && *v == old(self)@[0]
                && final(self).wf() && final(self)@ == old(self)@.update(0, *final(v))),
    {
        match &mut self.head {
            None => None,
            Some(node) => Some(&mut node.value),
        }
    }
}

impl<T> Drop for List<T> {
    /// Tears the chain down iteratively, head to tail. The default
    /// destruction of a `Box` chain would recurse once per node and
    /// exhaust the call stack on a long chain; this walk detaches each
    /// node's successor before the node itself is released.
    fn drop(&mut self)
        opens_invariants none
        no_unwind
    {
        let mut cur = None;
        std::mem::swap(&mut self.head, &mut cur);
        loop
            decreases link_view(cur).len(),
        {
            match cur {
                None => {
                    break ;
                },
                Some(node) => {
                    let node = *node;
                    cur = node.next;
                },
            }
        }
    }
}

/// A by-value traversal: repeatedly detaches the top element until the
/// stack it took over is exhausted. Finite and single-pass.
pub struct IntoIter<T>(List<T>);

impl<T> View for IntoIter<T> {
    type V = Seq<T>;

    /// The elements not yet handed out, in the order they will come.
    closed spec fn view(&self) -> Seq<T> {
        self.0@
    }
}

impl<T> IntoIter<T> {
    /// Well-formedness, carried over from the underlying stack.
    pub closed spec fn wf(&self) -> bool {
        self.0.wf()
    }

    /// Hands out the next element by value; `None` exactly when every
    /// element has been handed out.
    pub fn next(&mut self) -> (r: Option<T>)
        requires
            old(self).wf(),
        ensures
            final(self).wf(),
            old(self)@.len() == 0 ==> r is None && final(self)@ == old(self)@,
            old(self)@.len() > 0 ==> r == Some(old(self)@[0]) && final(self)@ == old(self)@.drop_first(),
    {
        self.0.pop()
    }
}

/// A read-only traversal over a node chain. Finite and single-pass: each
/// call of `next` hands out one borrowed element, nearest first.
pub struct Iter<'a, T> {
    next: Option<&'a Node<T>>,
}

impl<'a, T> View for Iter<'a, T> {
    type V = Seq<T>;

    /// The elements not yet handed out, in the order they will come.
    closed spec fn view(&self) -> Seq<T> {
        match self.next {
            None => Seq::empty(),
            Some(node) => seq![node.value] + link_view(node.next),
        }
    }
}

impl<'a, T> Iter<'a, T> {
    /// Hands out a borrow of the next element; `None` exactly when every
    /// element has been handed out.
    pub fn next(&mut self) -> (r: Option<&'a T>)
        ensures
            old(self)@.len() == 0 ==> r is None && final(self)@ == old(self)@,
            old(self)@.len() > 0 ==> (r matches Some(v) && *v == old(self)@[0]
                && final(self)@ == old(self)@.drop_first()),
    {
        match self.next {
            None => None,
            Some(node) => {
                self.next = match &node.next {
                    None => None,
                    Some(n) => Some(&**n),
                };
                Some(&node.value)
            },
        }
    }
}

/// A mutable traversal over a node chain. Finite and single-pass: each
/// call of `next` hands out one mutably borrowed element, nearest first.
pub struct IterMut<'a, T> {
    next: Option<&'a mut Node<T>>,
}

impl<'a, T> View for IterMut<'a, T> {
    type V = Seq<T>;

    /// The elements not yet handed out, in the order they will come.
    closed spec fn view(&self) -> Seq<T> {
        match self.next {
            None => Seq::empty(),
            Some(node) => seq![node.value] + link_view(node.next),
        }
    }
}

impl<'a, T> IterMut<'a, T> {
    /// Hands out a mutable borrow of the next element; `None` exactly when
    /// every element has been handed out.
    pub fn next(&mut self) -> (r: Option<&'a mut T>)
        ensures
            old(self)@.len() == 0 ==> r is None && final(self)@ == old(self)@,
            old(self)@.len() > 0 ==> (r matches Some(v) && *v == old(self)@[0]
                && final(self)@ == old(self)@.drop_first()),
    {
        let mut taken = None;
        std::mem::swap(&mut self.next, &mut taken);
        match taken {
            None => None,
            Some(node) => {
                let Node { value, next } = node;
                self.next = match next {
                    None => None,
                    Some(n) => Some(&mut **n),
                };
                Some(value)
            },
        }
    }
}

/// The stack built by pushing the values of `vs` in order onto `s`.
pub open spec fn push_all<T>(s: Seq<T>, vs: Seq<T>) -> Seq<T>
    decreases vs.len(),
{
    if vs.len() == 0 {
        s
    } else {
        push_all(pushed(s, vs[0]), vs.drop_first())
    }
}

/// Law: the stack is last-in-first-out. Pushing the values of `vs` in
/// order onto a stack leaves them in reverse order in front of what was
/// there, so popping until the old contents are reached yields exactly
/// the reverse of the push sequence (`pop` returns the front of the view
/// and drops it); and the length after the pushes is the old length plus
/// one per push, each successful pop taking one away again.
pub proof fn lemma_stack_is_lifo<T>(s: Seq<T>, vs: Seq<T>)
    ensures
        push_all(s, vs) == vs.reverse() + s,
        push_all(s, vs).len() == s.len() + vs.len(),
    decreases vs.len(),
{
    if vs.len() == 0 {
        assert(vs.reverse() =~= Seq::<T>::empty());
        assert(push_all(s, vs) =~= vs.reverse() + s);
    } else {
        lemma_stack_is_lifo(pushed(s, vs[0]), vs.drop_first());
        assert(vs.reverse() =~= vs.drop_first().reverse() + seq![vs[0]]);
        assert(vs.drop_first().reverse() + (seq![vs[0]] + s) =~= (vs.drop_first().reverse()
            + seq![vs[0]]) + s);
    }
}

} // verus!
