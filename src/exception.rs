use vstd::prelude::*;

use crate::convert::{read_text, text_of};
use crate::engine::{Context, RawValue};
use crate::error::Error;

verus! {

/// `e` is the error made from a thrown value holding `thrown`: an engine
/// exception that carries the value's text where it could be rendered, with
/// `buffers` scratch buffers lent out at the time.
pub open spec fn describes_thrown(e: Error, thrown: Seq<u8>, buffers: nat) -> bool {
    e matches Error::Exception { message } && (message is Some <==> (buffers < usize::MAX
        && text_of(thrown) is Some)) && (message matches Some(m) ==> text_of(thrown) == Some(m@))
}

/// The checked call: every raw result of a fallible engine call passes here.
/// A value comes back unchanged. The failure sentinel takes the thrown value
/// out of the pending-exception slot, renders it as text where it can, drops
/// it, and comes back as `Error::Exception`; the slot is empty afterwards.
pub fn handle_exception(ctx: &mut Context, raw: RawValue) -> (r: Result<usize, Error>)
    requires
        old(ctx).wf(),
        raw == RawValue::Exception ==> old(ctx)@.pending is Some,
    ensures
        final(ctx).wf(),
        raw matches RawValue::Slot(i) ==> r == Ok::<usize, Error>(i) && final(ctx)@ == old(ctx)@,
        raw == RawValue::Exception ==> ({
            let p = old(ctx)@.pending->0 as int;
            &&& final(ctx)@ == old(ctx)@.without_pending().with_free(p)
            &&& r matches Err(e) && describes_thrown(e, old(ctx)@.heap[p].bytes, old(ctx)@.buffers)
        }),
{
    match raw {
        RawValue::Slot(i) => Ok(i),
        RawValue::Exception => {
            let p = ctx.get_exception();
            let message = match read_text(ctx, p) {
                Ok(t) => Some(t),
                Err(_) => None,
            };
            ctx.free_value(p);
            Err(Error::Exception { message })
        },
    }
}

} // verus!
