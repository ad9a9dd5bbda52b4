//! The stack's laws, stated and proved over the same sequence model that the
//! contracts of `List::push` and `List::pop` use: a push appends to the view,
//! a pop removes and returns the view's last element, and a pop of an empty
//! view returns nothing and changes nothing.

use vstd::prelude::*;

verus! {

/// The view of a stack whose view was `stack` after pushing each element of
/// `elems`, first element first. Each step appends one element, exactly as
/// `List::push`'s contract states of one call.
pub open spec fn after_pushes<T>(stack: Seq<T>, elems: Seq<T>) -> Seq<T>
    decreases elems.len(),
{
    if elems.len() == 0 {
        stack
    } else {
        after_pushes(stack.push(elems[0]), elems.drop_first())
    }
}

/// The view of a stack whose view was `stack` after `count` pops. Each step
/// removes the last element if there is one and otherwise leaves the view
/// as it is, exactly as `List::pop`'s contract states of one call.
pub open spec fn after_pops<T>(stack: Seq<T>, count: nat) -> Seq<T>
    decreases count,
{
    if count == 0 {
        stack
    } else if stack.len() == 0 {
        stack
    } else {
        after_pops(stack.drop_last(), (count - 1) as nat)
    }
}

/// Pushing a batch of elements appends the batch to the view in push order:
/// the most recent push is at the top.
pub proof fn lemma_after_pushes_appends<T>(stack: Seq<T>, elems: Seq<T>)
    ensures
        after_pushes(stack, elems) == stack + elems,
    decreases elems.len(),
{
    if elems.len() == 0 {
        assert(after_pushes(stack, elems) =~= stack + elems);
    } else {
        lemma_after_pushes_appends(stack.push(elems[0]), elems.drop_first());
        assert(stack.push(elems[0]) + elems.drop_first() =~= stack + elems);
    }
}

/// As long as elements remain, each pop shortens the view by exactly one
/// from the top: `count` pops leave the first `stack.len() - count` elements.
pub proof fn lemma_after_pops_takes<T>(stack: Seq<T>, count: nat)
    requires
        count <= stack.len(),
    ensures
        after_pops(stack, count) == stack.take(stack.len() - count),
    decreases count,
{
    if count == 0 {
        assert(stack.take(stack.len() - count) =~= stack);
    } else {
        lemma_after_pops_takes(stack.drop_last(), (count - 1) as nat);
        assert(stack.drop_last().take(stack.len() - count) =~= stack.take(
            stack.len() - count,
        ));
    }
}

/// The LIFO law. Push the elements of `elems` in order onto an empty stack,
/// then keep popping: the pop taken `k` pops in (counting from zero) finds a
/// non-empty stack and returns `elems[elems.len() - 1 - k]`. So the pops
/// return the pushed elements in strict reverse push order.
pub proof fn lemma_lifo_order<T>(elems: Seq<T>, k: int)
    requires
        0 <= k < elems.len(),
    ensures
        after_pops(after_pushes(Seq::<T>::empty(), elems), k as nat).len() == elems.len() - k,
        after_pops(after_pushes(Seq::<T>::empty(), elems), k as nat).last() == elems[elems.len()
            - 1 - k],
{
    lemma_after_pushes_appends(Seq::<T>::empty(), elems);
    assert(Seq::<T>::empty() + elems =~= elems);
    lemma_after_pops_takes(elems, k as nat);
    assert(elems.take(elems.len() - k).last() == elems[elems.len() - 1 - k]);
}

/// Draining: pushing `elems.len()` elements and then popping as many times
/// leaves the stack empty again, so by `List::pop`'s contract the next pop
/// returns nothing.
pub proof fn lemma_drain_leaves_empty<T>(elems: Seq<T>)
    ensures
        after_pops(after_pushes(Seq::<T>::empty(), elems), elems.len()) == Seq::<T>::empty(),
{
    lemma_after_pushes_appends(Seq::<T>::empty(), elems);
    assert(Seq::<T>::empty() + elems =~= elems);
    lemma_after_pops_takes(elems, elems.len());
    assert(elems.take(0) =~= Seq::<T>::empty());
}

/// A pop of an empty stack never conjures an element: however often an empty
/// stack is popped, it stays empty, whether it was born empty or drained.
pub proof fn lemma_pop_of_empty_stays_empty<T>(count: nat)
    ensures
        after_pops(Seq::<T>::empty(), count) == Seq::<T>::empty(),
{
}

/// Push then immediate pop: by `List::pop`'s contract the pop finds a
/// non-empty stack, returns exactly the element just pushed — whatever its
/// value and type — and restores the view the stack had before the push.
pub proof fn lemma_push_then_pop<T>(stack: Seq<T>, elem: T)
    ensures
        stack.push(elem).len() > 0,
        stack.push(elem).last() == elem,
        stack.push(elem).drop_last() == stack,
{
    assert(stack.push(elem).drop_last() =~= stack);
}

} // verus!
