//! A singly-linked, uniquely-owned LIFO stack.
//!
//! [`List`] owns a chain of nodes, each of which owns the next one, so the
//! structure is a tree of depth `n` degenerated to a list and can hold no
//! cycle. Its abstract view is the sequence of its elements from the bottom
//! of the stack to the top: `push` appends to the view and `pop` removes the
//! view's last element. Dropping a stack tears the chain down iteratively,
//! so that an arbitrarily long chain is released without recursing once per
//! node.

use vstd::prelude::*;

pub mod laws;

verus! {

/// A last-in-first-out stack over any element type.
///
/// The view `self@` is a `Seq<T>` listing the elements from the bottom of
/// the stack (index `0`) to the top (the last index).
pub struct List<T> {
    head: Link<T>,
}

/// A link either marks the end of the chain or owns the next node.
enum Link<T> {
    Empty,
    More(Box<Node<T>>),
}

/// One cell of the chain: an element and the link to the node under it.
struct Node<T> {
    elem: T,
    next: Link<T>,
}

impl<T> Link<T> {
    /// The elements reachable through this link, deepest node first, so the
    /// node the link points at comes last.
    spec fn elems(self) -> Seq<T>
        decreases self,
    {
        match self {
            Link::Empty => Seq::empty(),
            Link::More(node) => node.next.elems().push(node.elem),
        }
    }
}

impl<T> View for List<T> {
    type V = Seq<T>;

    closed spec fn view(&self) -> Seq<T> {
        self.head.elems()
    }
}

impl<T> List<T> {
    /// Returns the empty stack.
    pub fn new() -> (list: Self)
        ensures
            list@ == Seq::<T>::empty(),
    {
        List { head: Link::Empty }
    }

    /// Pushes `elem` onto the top of the stack.
    pub fn push(&mut self, elem: T)
        ensures
            final(self)@ == old(self)@.push(elem),
    {
        let mut head: Link<T> = Link::Empty;
        core::mem::swap(&mut self.head, &mut head);
        self.head = Link::More(Box::new(Node { elem, next: head }));
    }

    /// Removes and returns the top element. Absence is a normal outcome,
    /// not an error: the result is `None` exactly when the stack is empty,
    /// and an empty stack is left as it is.
    pub fn pop(&mut self) -> (popped: Option<T>)
        ensures
            old(self)@.len() == 0 ==> popped is None && final(self)@ == old(self)@,
            old(self)@.len() > 0 ==> popped == Some(old(self)@.last())
                && final(self)@ == old(self)@.drop_last(),
    {
        let mut head: Link<T> = Link::Empty;
        core::mem::swap(&mut self.head, &mut head);
        match head {
            Link::Empty => None,
            Link::More(node) => {
                self.head = node.next;
                proof {
                    assert(self@ =~= old(self)@.drop_last());
                }
                Some(node.elem)
            }
        }
    }
}

impl<T> Default for List<T> {
    /// The default stack is the empty stack, exactly as `List::new` builds it.
    fn default() -> (list: Self)
        ensures
            list@ == Seq::<T>::empty(),
    {
        List::new()
    }
}

impl<T> Drop for List<T> {
    /// Releases every node of the chain iteratively: each node's own link is
    /// detached before the node is dropped, so the node sees an empty link
    /// and the teardown never recurses down the remainder of the chain. The
    /// loop's termination measure is the number of elements still linked.
    fn drop(&mut self)
        opens_invariants none
        no_unwind
    {
        let mut cur: Link<T> = Link::Empty;
        core::mem::swap(&mut self.head, &mut cur);
        loop
            decreases cur.elems().len(),
        {
            match cur {
                Link::Empty => {
                    break;
                }
                Link::More(mut node) => {
                    let mut rest: Link<T> = Link::Empty;
                    core::mem::swap(&mut node.next, &mut rest);
                    cur = rest;
                }
            }
        }
    }
}

} // verus!
