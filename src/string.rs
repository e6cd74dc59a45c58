use vstd::prelude::*;
use vstd::utf8::encode_utf8;

use crate::convert::{
    lemma_text_of_encoding, lemma_text_of_joined, longest_valid_prefix, read_text, text_of,
};
use crate::engine::{length_error_text, Context, ContextView, RawValue};
use crate::error::Error;
use crate::exception::{describes_thrown, handle_exception};
use crate::value::ValueRef;

verus! {

/// A reference to a string value of the engine.
#[derive(Debug, PartialEq, Eq, Structural)]
pub struct String(pub(crate) ValueRef);

/// What a checked construction of a string holding `bytes` did: from `before`
/// to `after`, with result `r`. Bytes that fit give a new string with one
/// reference; longer ones give the engine's length error, whose thrown value is
/// drained and released again.
pub open spec fn constructed(
    before: ContextView,
    bytes: Seq<u8>,
    r: Result<String, Error>,
    after: ContextView,
) -> bool {
    if bytes.len() <= before.max_len {
        &&& r matches Ok(v) && v.handle().context_id() == before.id && v.handle().index()
            == before.heap.len()
        &&& after == before.with_new(bytes)
    } else {
        &&& after == before.with_released_slot()
        &&& r matches Err(Error::Exception { message }) && (before.buffers < usize::MAX ==> (
        message matches Some(m) && m@ == length_error_text())) && (before.buffers >= usize::MAX
            ==> message is None)
    }
}

impl String {
    /// The value reference this string holds.
    pub closed spec fn handle(&self) -> ValueRef {
        self.0
    }

    /// The string is still alive in `c`.
    pub open spec fn valid_in(&self, c: ContextView) -> bool {
        self.handle().valid_in(c)
    }

    /// The bytes the engine holds for this string in `c`.
    pub open spec fn content(&self, c: ContextView) -> Seq<u8> {
        self.handle().content(c)
    }

    /// Wraps the raw result of an engine call that builds a string. The
    /// result goes through the checked call first, so a failure comes back as
    /// the engine's exception; a value is taken over with the reference the
    /// call counted for it.
    pub fn from_raw(ctx: &mut Context, raw: RawValue) -> (r: Result<String, Error>)
        requires
            old(ctx).wf(),
            raw == RawValue::Exception ==> old(ctx)@.pending is Some,
            raw matches RawValue::Slot(i) ==> old(ctx)@.live(i as int),
        ensures
            final(ctx).wf(),
            raw matches RawValue::Slot(i) ==> (r matches Ok(v) && v.handle().context_id()
                == old(ctx)@.id && v.handle().index() == i) && final(ctx)@ == old(ctx)@,
            raw == RawValue::Exception ==> ({
                let p = old(ctx)@.pending->0 as int;
                &&& final(ctx)@ == old(ctx)@.without_pending().with_free(p)
                &&& r matches Err(e) && describes_thrown(
                    e,
                    old(ctx)@.heap[p].bytes,
                    old(ctx)@.buffers,
                )
            }),
    {
        match handle_exception(ctx, raw) {
            Ok(slot) => Ok(String(ValueRef::from_raw(ctx, slot))),
            Err(e) => Err(e),
        }
    }

    /// Completes a construction: the raw result `raw` of a call that tried to
    /// build a string holding `bytes` in `ctx`.
    fn finish_construction(
        ctx: &mut Context,
        raw: RawValue,
        Ghost(before): Ghost<ContextView>,
        Ghost(bytes): Ghost<Seq<u8>>,
    ) -> (r: Result<String, Error>)
        requires
            before.wf(),
            before.pending is None,
            old(ctx).wf(),
            bytes.len() <= before.max_len ==> (raw matches RawValue::Slot(i) && i
                == before.heap.len()) && old(ctx)@ == before.with_new(bytes),
            bytes.len() > before.max_len ==> raw == RawValue::Exception && old(ctx)@
                == before.with_length_error(),
        ensures
            final(ctx).wf(),
            constructed(before, bytes, r, final(ctx)@),
    {
        let r = String::from_raw(ctx, raw);
        proof {
            if bytes.len() > before.max_len {
                assert(final(ctx)@.heap =~= before.with_released_slot().heap);
                lemma_text_of_encoding(length_error_text());
            }
        }
        r
    }

    /// Makes an engine string holding the UTF-8 bytes of `s`. The engine
    /// copies the bytes; where they are longer than the context allows, its
    /// exception comes back as the error and the context is left with no
    /// exception pending.
    pub fn from_str(ctx: &mut Context, s: &str) -> (r: Result<String, Error>)
        requires
            old(ctx).wf(),
            old(ctx)@.pending is None,
        ensures
            final(ctx).wf(),
            final(ctx)@.pending is None,
            constructed(old(ctx)@, encode_utf8(s@), r, final(ctx)@),
    {
        proof {
            old(ctx).lemma_wf();
        }
        let ghost before = ctx@;
        let raw = ctx.new_string_len(s.as_bytes());
        String::finish_construction(ctx, raw, Ghost(before), Ghost(encode_utf8(s@)))
    }

    /// Makes an engine string holding this string's bytes followed by those of
    /// `suffix`, through the engine's own concatenation.
    pub fn concat(&self, ctx: &mut Context, suffix: &String) -> (r: Result<String, Error>)
        requires
            old(ctx).wf(),
            old(ctx)@.pending is None,
            self.valid_in(old(ctx)@),
            suffix.valid_in(old(ctx)@),
        ensures
            final(ctx).wf(),
            final(ctx)@.pending is None,
            constructed(old(ctx)@, self.content(old(ctx)@) + suffix.content(old(ctx)@), r, final(ctx)@),
    {
        proof {
            old(ctx).lemma_wf();
        }
        let ghost before = ctx@;
        let raw = ctx.concat_strings(self.0.slot(), suffix.0.slot());
        String::finish_construction(
            ctx,
            raw,
            Ghost(before),
            Ghost(self.content(before) + suffix.content(before)),
        )
    }

    /// Reads this string as host text. The bytes are taken strictly as UTF-8:
    /// invalid ones fail with `Utf8`, never replaced or cut off. `Unknown`
    /// comes only where the engine has no scratch buffer left to lend. The
    /// context is left as it was.
    pub fn to_string(&self, ctx: &mut Context) -> (r: Result<std::string::String, Error>)
        requires
            old(ctx).wf(),
            self.valid_in(old(ctx)@),
        ensures
            final(ctx).wf(),
            final(ctx)@ == old(ctx)@,
            match r {
                Ok(t) => old(ctx)@.buffers < usize::MAX && text_of(self.content(old(ctx)@)) == Some(
                    t@,
                ),
                Err(Error::Utf8 { valid_up_to }) => old(ctx)@.buffers < usize::MAX && text_of(
                    self.content(old(ctx)@),
                ) is None && longest_valid_prefix(self.content(old(ctx)@), valid_up_to as int),
                Err(Error::Unknown) => old(ctx)@.buffers >= usize::MAX,
                Err(Error::Exception { .. }) => false,
            },
    {
        read_text(ctx, self.0.slot())
    }

    /// A second reference to the same engine string.
    pub fn dup(&self, ctx: &mut Context) -> (r: String)
        requires
            old(ctx).wf(),
            self.valid_in(old(ctx)@),
            old(ctx)@.heap[self.handle().index()].refs < usize::MAX,
        ensures
            final(ctx).wf(),
            r == *self,
            final(ctx)@ == old(ctx)@.with_dup(self.handle().index()),
    {
        String(self.0.dup(ctx))
    }

    /// Gives this reference up; the string is released with its last one.
    pub fn release(self, ctx: &mut Context)
        requires
            old(ctx).wf(),
            old(ctx)@.pending is None,
            self.valid_in(old(ctx)@),
        ensures
            final(ctx).wf(),
            final(ctx)@ == old(ctx)@.with_free(self.handle().index()),
    {
        self.0.release(ctx)
    }

    /// The value reference this string holds.
    pub fn as_value(&self) -> (r: &ValueRef)
        ensures
            *r == self.handle(),
    {
        &self.0
    }
}

/// Host text made into an engine string reads back as the same text.
pub proof fn lemma_round_trip(
    before: ContextView,
    s: Seq<char>,
    r: Result<String, Error>,
    after: ContextView,
)
    requires
        constructed(before, encode_utf8(s), r, after),
        r is Ok,
    ensures
        r->Ok_0.valid_in(after),
        text_of(r->Ok_0.content(after)) == Some(s),
{
    lemma_text_of_encoding(s);
}

/// An engine string made from host text `s`, joined in the engine with one
/// made from host text `t`, reads back as `s` followed by `t`.
pub proof fn lemma_join_round_trip(
    c0: ContextView,
    s: Seq<char>,
    r1: Result<String, Error>,
    c1: ContextView,
    t: Seq<char>,
    r2: Result<String, Error>,
    c2: ContextView,
    r3: Result<String, Error>,
    c3: ContextView,
)
    requires
        constructed(c0, encode_utf8(s), r1, c1),
        r1 is Ok,
        constructed(c1, encode_utf8(t), r2, c2),
        r2 is Ok,
        constructed(c2, r1->Ok_0.content(c2) + r2->Ok_0.content(c2), r3, c3),
        r3 is Ok,
    ensures
        r1->Ok_0.valid_in(c2),
        r3->Ok_0.valid_in(c3),
        text_of(r3->Ok_0.content(c3)) == Some(s + t),
{
    let a = r1->Ok_0;
    assert(a.content(c2) == encode_utf8(s));
    lemma_text_of_joined(s, t);
}

/// A failed checked call leaves no exception pending, so the next call on the
/// same context works normally: a construction too long for the context fails
/// with the engine's exception, and one that fits, made right after on the
/// resulting context, succeeds.
pub proof fn lemma_failure_drains_exception(
    c0: ContextView,
    long: Seq<u8>,
    r1: Result<String, Error>,
    c1: ContextView,
    short: Seq<u8>,
    r2: Result<String, Error>,
    c2: ContextView,
)
    requires
        c0.wf(),
        c0.pending is None,
        long.len() > c0.max_len,
        short.len() <= c0.max_len,
        constructed(c0, long, r1, c1),
        constructed(c1, short, r2, c2),
    ensures
        r1 matches Err(Error::Exception { .. }),
        c1.wf(),
        c1.pending is None,
        r2 is Ok,
        r2->Ok_0.valid_in(c2),
        r2->Ok_0.content(c2) == short,
{
}

} // verus!
