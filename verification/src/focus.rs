//! The focus-navigation stack: a LIFO history of focus values whose top is
//! the active focus. The stack is seeded with one element at startup and can
//! never become empty: the only pop operation refuses to remove the last
//! element, so the bottom element installed at startup is never lost.

use vstd::prelude::*;

use crate::layouts::Focus;

verus! {

/// LIFO history of focus values; the last element of the view is the top.
pub struct FocusStack {
    stack: Vec<Focus>,
}

impl View for FocusStack {
    type V = Seq<Focus>;

    closed spec fn view(&self) -> Seq<Focus> {
        self.stack@
    }
}

impl FocusStack {
    /// Seed the stack with its bottom element. There is no way to construct
    /// an empty stack.
    pub fn new(initial: Focus) -> (s: FocusStack)
        ensures
            s@ == seq![initial],
    {
        let mut stack: Vec<Focus> = Vec::new();
        stack.push(initial);
        proof {
            assert(stack@ =~= seq![initial]);
        }
        FocusStack { stack }
    }

    pub fn len(&self) -> (n: usize)
        ensures
            n == self@.len(),
    {
        self.stack.len()
    }

    /// The active focus: the top of the stack.
    pub fn current(&self) -> (f: Focus)
        requires
            self@.len() >= 1,
        ensures
            f == self@.last(),
    {
        self.stack[self.stack.len() - 1]
    }

    pub fn push(&mut self, focus: Focus)
        ensures
            final(self)@ == old(self)@.push(focus),
    {
        self.stack.push(focus);
    }

    /// Remove and return the top of the stack. Popping the last element
    /// would be a programming error, so it is ruled out, not tolerated.
    pub fn pop(&mut self) -> (f: Focus)
        requires
            old(self)@.len() > 1,
        ensures
            final(self)@ == old(self)@.drop_last(),
            f == old(self)@.last(),
    {
        let f = self.stack[self.stack.len() - 1];
        let popped = self.stack.pop();
        proof {
            assert(self.stack@ =~= old(self)@.drop_last());
        }
        f
    }
}

/// One step of the push/pop grammar on the focus stack.
pub enum FocusOp {
    Push(Focus),
    Pop,
}

/// The stack contents after one grammar step.
pub open spec fn apply_op(s: Seq<Focus>, op: FocusOp) -> Seq<Focus> {
    match op {
        FocusOp::Push(f) => s.push(f),
        FocusOp::Pop => s.drop_last(),
    }
}

/// A sequence of grammar steps is valid from `s` when every pop happens
/// while more than one element is on the stack.
pub open spec fn ops_valid(s: Seq<Focus>, ops: Seq<FocusOp>) -> bool
    decreases ops.len(),
{
    ops.len() == 0 || {
        &&& (ops[0] is Push || s.len() > 1)
        &&& ops_valid(apply_op(s, ops[0]), ops.drop_first())
    }
}

/// The stack contents after a sequence of grammar steps.
pub open spec fn apply_ops(s: Seq<Focus>, ops: Seq<FocusOp>) -> Seq<Focus>
    decreases ops.len(),
{
    if ops.len() == 0 {
        s
    } else {
        apply_ops(apply_op(s, ops[0]), ops.drop_first())
    }
}

/// Every valid sequence of pushes and pops keeps the stack non-empty and
/// keeps the bottom element installed at startup in place.
pub proof fn lemma_focus_stack_never_empty(s: Seq<Focus>, ops: Seq<FocusOp>)
    requires
        s.len() >= 1,
        ops_valid(s, ops),
    ensures
        apply_ops(s, ops).len() >= 1,
        apply_ops(s, ops)[0] == s[0],
    decreases ops.len(),
{
    if ops.len() == 0 {
    } else {
        let next = apply_op(s, ops[0]);
        match ops[0] {
            FocusOp::Push(f) => {
                assert(next.len() == s.len() + 1);
                assert(next[0] == s[0]);
            },
            FocusOp::Pop => {
                assert(s.len() > 1);
                assert(next.len() == s.len() - 1);
                assert(next[0] == s[0]);
            },
        }
        lemma_focus_stack_never_empty(next, ops.drop_first());
    }
}

/// The grammar steps that push the given elements, in order.
pub open spec fn pushes(rest: Seq<Focus>) -> Seq<FocusOp> {
    Seq::new(rest.len(), |i: int| FocusOp::Push(rest[i]))
}

/// Pushing a sequence of elements is always valid and appends them to the
/// stack.
pub proof fn lemma_pushes(base: Seq<Focus>, rest: Seq<Focus>)
    ensures
        ops_valid(base, pushes(rest)),
        apply_ops(base, pushes(rest)) == base + rest,
    decreases rest.len(),
{
    let ops = pushes(rest);
    if rest.len() == 0 {
        assert(apply_ops(base, ops) =~= base + rest);
    } else {
        let base2 = base.push(rest[0]);
        assert(ops.drop_first() =~= pushes(rest.drop_first()));
        lemma_pushes(base2, rest.drop_first());
        assert(base2 + rest.drop_first() =~= base + rest);
    }
}

/// Completeness of the grammar: every stack with the startup element at the
/// bottom is reachable by some valid sequence of pushes and pops — together
/// with `lemma_focus_stack_never_empty`, the reachable states are exactly
/// those the grammar produces.
pub proof fn lemma_focus_stack_reachable(init: Focus, target: Seq<Focus>)
    requires
        target.len() >= 1,
        target[0] == init,
    ensures
        exists|ops: Seq<FocusOp>|
            ops_valid(seq![init], ops) && apply_ops(seq![init], ops) == target,
{
    let ops = pushes(target.drop_first());
    lemma_pushes(seq![init], target.drop_first());
    assert(seq![init] + target.drop_first() =~= target);
    assert(ops_valid(seq![init], ops) && apply_ops(seq![init], ops) == target);
}

} // verus!
