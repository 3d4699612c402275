//! A persistent singly-linked list whose nodes are shared between handles.
//!
//! `append` and `tail` never mutate or copy the receiver: each builds a new
//! list that shares the receiver's whole chain as its suffix. Any number of
//! lists may therefore hang off a common chain at once, and a node is
//! released only when the last list referring to it goes away.

use std::rc::Rc;
use vstd::prelude::*;

verus! {

/// A link to the rest of a chain: `None` at the end. A node may be the
/// target of any number of such links, held by different lists.
type SharedLink<T> = Option<Rc<Node<T>>>;

/// One cell of the chain: a value and the link to its successor.
#[derive(Debug)]
pub struct Node<T> {
    value: T,
    next: SharedLink<T>,
}

/// A persistent list over a shared node chain.
#[derive(Debug)]
pub struct List<T> {
    head: SharedLink<T>,
    count: u32,
}

/// The elements reachable from `link`, nearest first.
pub closed spec fn link_view<T>(link: SharedLink<T>) -> Seq<T>
    decreases link,
{
    match link {
        None => Seq::empty(),
        Some(node) => seq![node.value] + link_view(node.next),
    }
}

impl<T> View for List<T> {
    type V = Seq<T>;

    /// The list's elements, front (most recently appended) first.
    closed spec fn view(&self) -> Seq<T> {
        link_view(self.head)
    }
}

/// The sequence a list holds after one append: the value in front of the rest.
pub open spec fn appended<T>(s: Seq<T>, value: T) -> Seq<T> {
    seq![value] + s
}

/// The sequence a list's tail holds: everything but the front element, and
/// the empty sequence when there was nothing to begin with.
pub open spec fn tail_of<T>(s: Seq<T>) -> Seq<T> {
    if s.len() == 0 {
        s
    } else {
        s.drop_first()
    }
}

/// The front element of a sequence, if there is one.
pub open spec fn head_of<T>(s: Seq<T>) -> Option<T> {
    if s.len() == 0 {
        None
    } else {
        Some(s[0])
    }
}

/// Relies on `Rc::clone`: the result is a new handle to the same shared
/// node, so it carries the same value.
#[verifier::external_body]
fn clone_node_handle<T>(node: &Rc<Node<T>>) -> (r: Rc<Node<T>>)
    ensures
        r == *node,
{
    Rc::clone(node)
}

/// Relies on `Rc::try_unwrap`: when this handle is the last one left, the
/// node comes back by value; otherwise the handle comes back unchanged.
/// Either way it is the same node, and the call never panics.
#[verifier::external_body]
fn take_last_handle<T>(node: Rc<Node<T>>) -> (r: Result<Node<T>, Rc<Node<T>>>)
    ensures
        match r {
            Ok(n) => n == node,
            Err(h) => h == node,
        },
    opens_invariants none
    no_unwind
{
    Rc::try_unwrap(node)
}

/// Copies a link: the new link leads to the same chain.
fn clone_link<T>(link: &SharedLink<T>) -> (r: SharedLink<T>)
    ensures
        r == *link,
{
    match link {
        None => None,
        Some(node) => Some(clone_node_handle(node)),
    }
}

impl<T> List<T> {
    /// Well-formedness: the maintained count agrees with the chain.
    pub closed spec fn wf(&self) -> bool {
        self.count == self@.len()
    }

    /// Creates an empty list.
    pub fn new() -> (r: List<T>)
        ensures
            r.wf(),
            r@ == Seq::<T>::empty(),
    {
        List { head: None, count: 0 }
    }

    /// The number of elements in the list.
    pub fn len(&self) -> (r: u32)
        requires
            self.wf(),
        ensures
            r == self@.len(),
    {
        self.count
    }

    /// Builds a new list with `value` in front of this list's elements.
    /// The receiver is only borrowed: its chain becomes the new list's
    /// suffix, shared, not copied.
    pub fn append(&self, value: T) -> (r: List<T>)
        requires
            self.wf(),
            self@.len() < u32::MAX,
        ensures
            r.wf(),
            r@ == appended(self@, value),
    {
        let new_count = self.count + 1;
        List {
            head: Some(Rc::new(Node { value, next: clone_link(&self.head) })),
            count: new_count,
        }
    }

    /// Builds a new list holding everything but this list's front element.
    /// The tail of an empty list is another empty list, not an error. The
    /// receiver is only borrowed; the result shares its chain.
    pub fn tail(&self) -> (r: List<T>)
        requires
            self.wf(),
        ensures
            r.wf(),
            r@ == tail_of(self@),
    {
        let mut new_count: u32 = 0;
        if self.count > 0 {
            new_count = self.count - 1;
        }
        let new_head = match &self.head {
            None => None,
            Some(node) => clone_link(&node.next),
        };
        List { head: new_head, count: new_count }
    }

    /// A read-only borrow of the front element; `None` exactly when empty.
    pub fn head(&self) -> (r: Option<&T>)
        ensures
            head_of(self@) is None ==> r is None,
            head_of(self@) matches Some(x) ==> (r matches Some(v) && *v == x),
    {
        match &self.head {
            None => None,
            Some(node) => Some(&node.value),
        }
    }

    /// A read-only traversal of the elements, front first, independent of
    /// any other list sharing the same nodes.
    pub fn iter<'a>(&'a self) -> (r: Iter<'a, T>)
        ensures
            r@ == self@,
    {
        Iter {
            next: match &self.head {
                None => None,
                Some(node) => Some(&**node),
            },
        }
    }
}

/// Releases `node` if this is the last handle to it, handing back its
/// successor link; hands back nothing when the node is still shared.
fn unlink_front<T>(node: Rc<Node<T>>) -> (r: Option<SharedLink<T>>)
    ensures
        r matches Some(next) ==> link_view(next).len() < link_view(Some(node)).len(),
    opens_invariants none
    no_unwind
{
    match take_last_handle(node) {
        Ok(n) => {
            let Node { value: _, next } = n;
            Some(next)
        },
        Err(_) => None,
    }
}

/// Detaches the list's chain and tears its exclusively held prefix down
/// iteratively, front to back, stopping at the first node that another
/// list still shares.
fn teardown<T>(list: &mut List<T>)
    opens_invariants none
    no_unwind
{
    let mut cur = None;
    std::mem::swap(&mut list.head, &mut cur);
    loop
        decreases link_view(cur).len(),
    {
        match cur {
            None => {
                break ;
            },
            Some(node) => {
                match unlink_front(node) {
                    Some(next) => {
                        cur = next;
                    },
                    None => {
                        break ;
                    },
                }
            },
        }
    }
}

impl<T> Drop for List<T> {
    /// Releases the chain without recursing: the walk in `teardown` lets
    /// go of one node at a time, so a long exclusively held chain cannot
    /// exhaust the call stack, and it stops at the first node another
    /// list still shares — that node and everything behind it stay intact
    /// for the other owners, so each node is released exactly once, by
    /// whichever list lets go of it last.
    fn drop(&mut self)
        opens_invariants none
        no_unwind
    {
        teardown(self);
    }
}

/// A read-only traversal over a shared node chain. Finite and single-pass:
/// each call of `next` hands out one borrowed element, nearest first.
pub struct Iter<'a, T> {
    next: Option<&'a Node<T>>,
}

impl<'a, T> View for Iter<'a, T> {
    type V = Seq<T>;

    /// The elements not yet handed out, in the order they will come.
    closed spec fn view(&self) -> Seq<T> {
        match self.next {
            None => Seq::empty(),
            Some(node) => seq![node.value] + link_view(node.next),
        }
    }
}

impl<'a, T> Iter<'a, T> {
    /// Hands out a borrow of the next element; `None` exactly when every
    /// element has been handed out.
    pub fn next(&mut self) -> (r: Option<&'a T>)
        ensures
            old(self)@.len() == 0 ==> r is None && final(self)@ == old(self)@,
            old(self)@.len() > 0 ==> (r matches Some(v) && *v == old(self)@[0]
                && final(self)@ == old(self)@.drop_first()),
    {
        match self.next {
            None => None,
            Some(node) => {
                self.next = match &node.next {
                    None => None,
                    Some(n) => Some(&**n),
                };
                Some(&node.value)
            },
        }
    }
}

/// Law: appending is non-destructive and layered. With `b` appended after
/// `a` on top of any base `s`, the front element is `b`, the element behind
/// it is `a`, and the base sequence sits unchanged behind both — so a list
/// and every list derived from it by `append` and `tail` agree on the
/// shared part. (The receivers themselves cannot change: `append` and
/// `tail` only borrow them.)
pub proof fn lemma_append_layers<T>(s: Seq<T>, a: T, b: T)
    ensures
        head_of(appended(appended(s, a), b)) == Some(b),
        head_of(tail_of(appended(appended(s, a), b))) == Some(a),
        tail_of(tail_of(appended(appended(s, a), b))) == s,
{
    assert(tail_of(appended(appended(s, a), b)) =~= appended(s, a));
    assert(tail_of(appended(s, a)) =~= s);
}

} // verus!
