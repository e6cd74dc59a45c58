use vstd::prelude::*;

use crate::engine::{Context, ContextView};

verus! {

/// A counted reference to a value in an engine heap, tagged with the context
/// that made it. Two references are equal when they denote the same engine
/// value. A reference is duplicated with `dup` and given up with `release`,
/// both through its context, which must outlive it.
#[derive(Debug, PartialEq, Eq, Structural)]
pub struct ValueRef {
    ctx: u64,
    slot: usize,
}

impl ValueRef {
    /// The identity of the context the value lives in.
    pub closed spec fn context_id(&self) -> u64 {
        self.ctx
    }

    /// The heap slot of the value.
    pub closed spec fn index(&self) -> int {
        self.slot as int
    }

    /// The reference denotes a value of `c` that is still alive.
    pub open spec fn valid_in(&self, c: ContextView) -> bool {
        self.context_id() == c.id && c.live(self.index())
    }

    /// The bytes of the value in `c`.
    pub open spec fn content(&self, c: ContextView) -> Seq<u8> {
        c.heap[self.index()].bytes
    }

    /// Wraps slot `slot` of `ctx`, taking over the reference that the engine
    /// call which produced it already counted: no count is added.
    pub(crate) fn from_raw(ctx: &Context, slot: usize) -> (r: ValueRef)
        ensures
            r.context_id() == ctx@.id,
            r.index() == slot,
    {
        ValueRef { ctx: ctx.id(), slot }
    }

    /// The heap slot of the value.
    pub fn slot(&self) -> (r: usize)
        ensures
            r == self.index(),
    {
        self.slot
    }

    /// A second reference to the same value: the engine's count goes up by one.
    pub fn dup(&self, ctx: &mut Context) -> (r: ValueRef)
        requires
            old(ctx).wf(),
            self.valid_in(old(ctx)@),
            old(ctx)@.heap[self.index()].refs < usize::MAX,
        ensures
            final(ctx).wf(),
            r == *self,
            final(ctx)@ == old(ctx)@.with_dup(self.index()),
    {
        ctx.dup_value(self.slot);
        ValueRef { ctx: self.ctx, slot: self.slot }
    }

    /// Gives the reference up: the engine's count goes down by one, and the
    /// value is released when this was the last reference.
    pub fn release(self, ctx: &mut Context)
        requires
            old(ctx).wf(),
            self.valid_in(old(ctx)@),
            old(ctx)@.pending == Some(self.index() as nat) ==> old(ctx)@.heap[self.index()].refs > 1,
        ensures
            final(ctx).wf(),
            final(ctx)@ == old(ctx)@.with_free(self.index()),
    {
        ctx.free_value(self.slot);
    }
}

/// Cloning a reference and dropping the first one leaves the clone valid, with
/// the same content; dropping the clone as well then releases the value, on
/// that last drop and not before.
pub proof fn lemma_clone_then_drop(c: ContextView, v: ValueRef)
    requires
        v.valid_in(c),
        c.heap[v.index()].refs == 1,
    ensures
        ({
            let cloned = c.with_dup(v.index());
            let first_dropped = cloned.with_free(v.index());
            let both_dropped = first_dropped.with_free(v.index());
            &&& v.valid_in(cloned)
            &&& v.valid_in(first_dropped)
            &&& v.content(first_dropped) == v.content(c)
            &&& first_dropped == c
            &&& !v.valid_in(both_dropped)
            &&& both_dropped.heap[v.index()].refs == 0
        }),
{
    let i = v.index();
    let cloned = c.with_dup(i);
    let first_dropped = cloned.with_free(i);
    assert(first_dropped.heap =~= c.heap);
}

} // verus!
