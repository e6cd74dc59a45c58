use vstd::prelude::*;
use vstd::utf8::{decode_utf8, encode_utf8, valid_utf8};

use crate::engine::Context;
use crate::error::Error;

verus! {

/// The text that `bytes` spell when read strictly as UTF-8, or `None` where
/// they are not valid UTF-8.
pub open spec fn text_of(bytes: Seq<u8>) -> Option<Seq<char>> {
    if valid_utf8(bytes) {
        Some(decode_utf8(bytes))
    } else {
        None
    }
}

/// `k` is the length of the longest prefix of `bytes` that is valid UTF-8.
pub open spec fn longest_valid_prefix(bytes: Seq<u8>, k: int) -> bool {
    &&& 0 <= k <= bytes.len()
    &&& valid_utf8(bytes.subrange(0, k))
    &&& forall|j: int| k < j <= bytes.len() ==> !valid_utf8(#[trigger] bytes.subrange(0, j))
}

/// Relies on std::str::from_utf8: it accepts exactly the valid UTF-8 byte
/// sequences and then yields their text; on failure `Utf8Error::valid_up_to`
/// is the largest index up to which the input is valid UTF-8.
#[verifier::external_body]
fn utf8_to_string(b: &[u8]) -> (r: Result<std::string::String, usize>)
    ensures
        match r {
            Ok(s) => text_of(b@) == Some(s@),
            Err(k) => text_of(b@) is None && longest_valid_prefix(b@, k as int),
        },
{
    match std::str::from_utf8(b) {
        Ok(s) => Ok(s.to_owned()),
        Err(e) => Err(e.valid_up_to()),
    }
}

/// Reads the string in slot `slot` of `ctx` as host text. The engine lends a
/// scratch copy of the bytes, which is given back on every path. Fails with
/// `Unknown` where the engine lends nothing (no live value in the slot, or no
/// buffer left to lend), and with `Utf8` where the bytes are not valid UTF-8;
/// nothing is ever replaced or cut off.
pub fn read_text(ctx: &mut Context, slot: usize) -> (r: Result<std::string::String, Error>)
    requires
        old(ctx).wf(),
    ensures
        final(ctx).wf(),
        final(ctx)@ == old(ctx)@,
        match r {
            Ok(t) => old(ctx)@.live(slot as int) && old(ctx)@.buffers < usize::MAX && text_of(
                old(ctx)@.heap[slot as int].bytes,
            ) == Some(t@),
            Err(Error::Utf8 { valid_up_to }) => old(ctx)@.live(slot as int) && old(ctx)@.buffers
                < usize::MAX && text_of(old(ctx)@.heap[slot as int].bytes) is None
                && longest_valid_prefix(old(ctx)@.heap[slot as int].bytes, valid_up_to as int),
            Err(Error::Unknown) => !(old(ctx)@.live(slot as int) && old(ctx)@.buffers
                < usize::MAX),
            Err(Error::Exception { .. }) => false,
        },
{
    match ctx.to_cstring_len(slot) {
        None => Err(Error::Unknown),
        Some(buf) => {
            let decoded = utf8_to_string(buf.as_slice());
            ctx.free_cstring(buf);
            match decoded {
                Ok(t) => Ok(t),
                Err(k) => Err(Error::Utf8 { valid_up_to: k }),
            }
        },
    }
}

/// The encoding of a concatenation is the concatenation of the encodings.
pub proof fn lemma_encode_concat(s: Seq<char>, t: Seq<char>)
    ensures
        encode_utf8(s + t) == encode_utf8(s) + encode_utf8(t),
    decreases s.len(),
{
    if s.len() > 0 {
        assert((s + t).drop_first() =~= s.drop_first() + t);
        lemma_encode_concat(s.drop_first(), t);
        assert(encode_utf8(s + t) =~= encode_utf8(s) + encode_utf8(t));
    } else {
        assert(s + t =~= t);
        assert(encode_utf8(s) + encode_utf8(t) =~= encode_utf8(t));
    }
}

/// Host text encoded for the engine reads back as the same text.
pub proof fn lemma_text_of_encoding(s: Seq<char>)
    ensures
        text_of(encode_utf8(s)) == Some(s),
{
    vstd::utf8::encode_utf8_valid_utf8(s);
    vstd::utf8::encode_utf8_decode_utf8(s);
}

/// The encodings of two host texts, joined in the engine, read back as the
/// two texts joined.
pub proof fn lemma_text_of_joined(s: Seq<char>, t: Seq<char>)
    ensures
        text_of(encode_utf8(s) + encode_utf8(t)) == Some(s + t),
{
    lemma_encode_concat(s, t);
    lemma_text_of_encoding(s + t);
}

} // verus!
