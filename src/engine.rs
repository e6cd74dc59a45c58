use vstd::prelude::*;
use vstd::slice::slice_to_vec;
use vstd::utf8::encode_utf8;

verus! {

/// One slot of the engine heap: how many references to its value are alive,
/// and the bytes of the string it holds. A slot whose count has dropped to
/// zero has been released and holds nothing.
pub struct ValueState {
    pub refs: nat,
    pub bytes: Seq<u8>,
}

/// The engine state of one execution context, as the boundary layer sees it.
pub struct ContextView {
    /// The identity that value references carry back to their context.
    pub id: u64,
    /// Every value ever made in this context, by slot.
    pub heap: Seq<ValueState>,
    /// The single pending-exception slot: the slot of the thrown value.
    pub pending: Option<nat>,
    /// The longest string, in bytes, that the engine will build.
    pub max_len: nat,
    /// Scratch text buffers handed out and not yet given back.
    pub buffers: nat,
}

/// The text of the exception the engine throws for a string that is too long.
pub open spec fn length_error_text() -> Seq<char> {
    "invalid string length"@
}

/// Number of live slots among the first `n` of `heap`.
pub open spec fn live_prefix(heap: Seq<ValueState>, n: int) -> nat
    decreases n,
{
    if n <= 0 {
        0
    } else {
        live_prefix(heap, n - 1) + if heap[n - 1].refs > 0 {
            1nat
        } else {
            0nat
        }
    }
}

/// Number of values of `heap` that still have a reference.
pub open spec fn live_count(heap: Seq<ValueState>) -> nat {
    live_prefix(heap, heap.len() as int)
}

impl ContextView {
    /// Slot `i` exists and its value still has a reference.
    pub open spec fn live(self, i: int) -> bool {
        0 <= i < self.heap.len() && self.heap[i].refs > 0
    }

    /// A pending exception always refers to a live value.
    pub open spec fn wf(self) -> bool {
        self.pending matches Some(p) ==> self.live(p as int)
    }

    /// A new string holding `bytes`, with one reference, in the next slot.
    pub open spec fn with_new(self, bytes: Seq<u8>) -> ContextView {
        ContextView { heap: self.heap.push(ValueState { refs: 1, bytes }), ..self }
    }

    /// One more reference to the value in slot `i`.
    pub open spec fn with_dup(self, i: int) -> ContextView {
        ContextView {
            heap: self.heap.update(i, ValueState { refs: self.heap[i].refs + 1, ..self.heap[i] }),
            ..self
        }
    }

    /// One reference fewer to the value in slot `i`; the last one releases it.
    pub open spec fn with_free(self, i: int) -> ContextView {
        let v = self.heap[i];
        let w = if v.refs <= 1 {
            ValueState { refs: 0, bytes: Seq::empty() }
        } else {
            ValueState { refs: (v.refs - 1) as nat, bytes: v.bytes }
        };
        ContextView { heap: self.heap.update(i, w), ..self }
    }

    /// The engine threw its length error: a new string holding its text, owned
    /// by the pending-exception slot.
    pub open spec fn with_length_error(self) -> ContextView {
        ContextView {
            heap: self.heap.push(ValueState { refs: 1, bytes: encode_utf8(length_error_text()) }),
            pending: Some(self.heap.len()),
            ..self
        }
    }

    /// A thrown value was taken out of the pending-exception slot.
    pub open spec fn without_pending(self) -> ContextView {
        ContextView { pending: None, ..self }
    }

    /// A value was made and released again: a new slot that holds nothing.
    pub open spec fn with_released_slot(self) -> ContextView {
        ContextView { heap: self.heap.push(ValueState { refs: 0, bytes: Seq::empty() }), ..self }
    }

    /// One more scratch buffer handed out.
    pub open spec fn with_buffer(self) -> ContextView {
        ContextView { buffers: self.buffers + 1, ..self }
    }

    /// One scratch buffer given back.
    pub open spec fn without_buffer(self) -> ContextView {
        ContextView { buffers: (self.buffers - 1) as nat, ..self }
    }
}

/// A raw result of an engine call: a value in a heap slot, or the failure
/// sentinel that says an exception is pending.
#[derive(Debug, Clone, Copy, PartialEq, Eq, Structural)]
pub enum RawValue {
    Exception,
    Slot(usize),
}

/// A scratch copy of a string's bytes that the engine lends out. It must be
/// handed back with `Context::free_cstring`.
pub struct TextBuffer {
    bytes: Vec<u8>,
}

impl View for TextBuffer {
    type V = Seq<u8>;

    closed spec fn view(&self) -> Seq<u8> {
        self.bytes@
    }
}

impl TextBuffer {
    pub fn as_slice(&self) -> (r: &[u8])
        ensures
            r@ == self@,
    {
        self.bytes.as_slice()
    }
}

/// One execution context of the engine: a heap of counted string values, a
/// single pending-exception slot, and the scratch buffers it has lent out.
pub struct Context {
    id: u64,
    refs: Vec<usize>,
    bytes: Vec<Vec<u8>>,
    pending: Option<usize>,
    max_len: usize,
    buffers: usize,
}

impl View for Context {
    type V = ContextView;

    closed spec fn view(&self) -> ContextView {
        ContextView {
            id: self.id,
            heap: Seq::new(
                self.refs@.len(),
                |i: int| ValueState { refs: self.refs@[i] as nat, bytes: self.bytes@[i]@ },
            ),
            pending: match self.pending {
                Some(p) => Some(p as nat),
                None => None,
            },
            max_len: self.max_len as nat,
            buffers: self.buffers as nat,
        }
    }
}

impl Context {
    /// The context's own bookkeeping is consistent and its view is well formed.
    pub closed spec fn wf(&self) -> bool {
        &&& self.refs@.len() == self.bytes@.len()
        &&& self@.wf()
    }

    pub proof fn lemma_wf(&self)
        requires
            self.wf(),
        ensures
            self@.wf(),
    {
    }

    /// A fresh context that builds strings of at most `max_string_len` bytes.
    pub fn new(id: u64, max_string_len: usize) -> (c: Context)
        ensures
            c.wf(),
            c@ == (ContextView {
                id,
                heap: Seq::empty(),
                pending: None,
                max_len: max_string_len as nat,
                buffers: 0,
            }),
    {
        let c = Context {
            id,
            refs: Vec::new(),
            bytes: Vec::new(),
            pending: None,
            max_len: max_string_len,
            buffers: 0,
        };
        assert(c@.heap =~= Seq::empty());
        c
    }

    pub fn id(&self) -> (r: u64)
        ensures
            r == self@.id,
    {
        self.id
    }

    /// Whether an exception is waiting in the pending-exception slot.
    pub fn has_exception(&self) -> (r: bool)
        ensures
            r == self@.pending is Some,
    {
        self.pending.is_some()
    }

    /// Puts a new string with one reference in the next slot.
    fn push_value(&mut self, b: Vec<u8>) -> (i: usize)
        requires
            old(self).wf(),
        ensures
            final(self).wf(),
            i == old(self)@.heap.len(),
            final(self)@ == old(self)@.with_new(b@),
    {
        let i = self.refs.len();
        self.refs.push(1);
        self.bytes.push(b);
        assert(self@.heap =~= old(self)@.with_new(b@).heap);
        i
    }

    /// Throws the length error into the (empty) pending-exception slot.
    fn throw_length_error(&mut self)
        requires
            old(self).wf(),
            old(self)@.pending is None,
        ensures
            final(self).wf(),
            final(self)@ == old(self)@.with_length_error(),
    {
        let text = "invalid string length";
        let i = self.push_value(slice_to_vec(text.as_bytes()));
        self.pending = Some(i);
        assert(self@.heap =~= old(self)@.with_length_error().heap);
    }

    /// The engine's string constructor: copies `bytes` into a new string, or
    /// throws the length error when they are longer than the context allows.
    pub fn new_string_len(&mut self, bytes: &[u8]) -> (r: RawValue)
        requires
            old(self).wf(),
            old(self)@.pending is None,
        ensures
            final(self).wf(),
            bytes@.len() <= old(self)@.max_len ==> (r matches RawValue::Slot(i) && i
                == old(self)@.heap.len()) && final(self)@ == old(self)@.with_new(bytes@),
            bytes@.len() > old(self)@.max_len ==> r == RawValue::Exception && final(self)@
                == old(self)@.with_length_error(),
    {
        if bytes.len() <= self.max_len {
            let i = self.push_value(slice_to_vec(bytes));
            RawValue::Slot(i)
        } else {
            self.throw_length_error();
            RawValue::Exception
        }
    }

    /// The engine's string concatenation: a new string holding the bytes of
    /// slot `a` followed by those of slot `b`, or the length error.
    pub fn concat_strings(&mut self, a: usize, b: usize) -> (r: RawValue)
        requires
            old(self).wf(),
            old(self)@.pending is None,
            old(self)@.live(a as int),
            old(self)@.live(b as int),
        ensures
            final(self).wf(),
            ({
                let joined = old(self)@.heap[a as int].bytes + old(self)@.heap[b as int].bytes;
                &&& joined.len() <= old(self)@.max_len ==> (r matches RawValue::Slot(i) && i
                    == old(self)@.heap.len()) && final(self)@ == old(self)@.with_new(joined)
                &&& joined.len() > old(self)@.max_len ==> r == RawValue::Exception && final(self)@
                    == old(self)@.with_length_error()
            }),
    {
        let la = self.bytes[a].len();
        let lb = self.bytes[b].len();
        if lb <= self.max_len && la <= self.max_len - lb {
            let mut joined = slice_to_vec(self.bytes[a].as_slice());
            let mut tail = slice_to_vec(self.bytes[b].as_slice());
            joined.append(&mut tail);
            let i = self.push_value(joined);
            RawValue::Slot(i)
        } else {
            self.throw_length_error();
            RawValue::Exception
        }
    }

    /// Takes the thrown value out of the pending-exception slot. The caller
    /// then owns the reference that the slot held.
    pub fn get_exception(&mut self) -> (p: usize)
        requires
            old(self).wf(),
            old(self)@.pending is Some,
        ensures
            final(self).wf(),
            p == old(self)@.pending->0,
            final(self)@.live(p as int),
            final(self)@ == old(self)@.without_pending(),
    {
        let p = self.pending.unwrap();
        self.pending = None;
        p
    }

    /// One more reference to the value in slot `i`.
    pub fn dup_value(&mut self, i: usize)
        requires
            old(self).wf(),
            old(self)@.live(i as int),
            old(self)@.heap[i as int].refs < usize::MAX,
        ensures
            final(self).wf(),
            final(self)@ == old(self)@.with_dup(i as int),
    {
        let n = self.refs[i];
        self.refs.set(i, n + 1);
        assert(self@.heap =~= old(self)@.with_dup(i as int).heap);
    }

    /// One reference fewer to the value in slot `i`; dropping the last one
    /// releases the value. The reference held by the pending-exception slot
    /// is not the caller's to drop.
    pub fn free_value(&mut self, i: usize)
        requires
            old(self).wf(),
            old(self)@.live(i as int),
            old(self)@.pending == Some(i as nat) ==> old(self)@.heap[i as int].refs > 1,
        ensures
            final(self).wf(),
            final(self)@ == old(self)@.with_free(i as int),
    {
        let n = self.refs[i];
        self.refs.set(i, n - 1);
        if n == 1 {
            self.bytes.set(i, Vec::new());
        }
        assert(self@.heap =~= old(self)@.with_free(i as int).heap);
    }

    /// Lends out a copy of the bytes of the string in slot `i`. Gives `None`
    /// where the slot holds no live value, or no further buffer can be lent.
    pub fn to_cstring_len(&mut self, i: usize) -> (r: Option<TextBuffer>)
        requires
            old(self).wf(),
        ensures
            final(self).wf(),
            old(self)@.live(i as int) && old(self)@.buffers < usize::MAX ==> (r matches Some(b)
                && b@ == old(self)@.heap[i as int].bytes && final(self)@ == old(self)@.with_buffer()),
            !(old(self)@.live(i as int) && old(self)@.buffers < usize::MAX) ==> r is None && final(self)@
                == old(self)@,
    {
        if i < self.refs.len() && self.refs[i] > 0 && self.buffers < usize::MAX {
            self.buffers = self.buffers + 1;
            Some(TextBuffer { bytes: slice_to_vec(self.bytes[i].as_slice()) })
        } else {
            None
        }
    }

    /// Takes back a buffer lent out by `to_cstring_len`.
    pub fn free_cstring(&mut self, buf: TextBuffer)
        requires
            old(self).wf(),
            old(self)@.buffers > 0,
        ensures
            final(self).wf(),
            final(self)@ == old(self)@.without_buffer(),
    {
        self.buffers = self.buffers - 1;
    }
    /// How many values of this context still have a reference: the engine's
    /// leak diagnostic.
    pub fn live_values(&self) -> (n: usize)
        requires
            self.wf(),
        ensures
            n == live_count(self@.heap),
    {
        let mut n: usize = 0;
        let mut i: usize = 0;
        while i < self.refs.len()
            invariant
                i <= self.refs@.len(),
                self.wf(),
                n <= i,
                n == live_prefix(self@.heap, i as int),
            decreases self.refs@.len() - i,
        {
            if self.refs[i] > 0 {
                n = n + 1;
            }
            i = i + 1;
        }
        n
    }

    /// How many scratch buffers are lent out and not given back.
    pub fn open_buffers(&self) -> (n: usize)
        ensures
            n == self@.buffers,
    {
        self.buffers
    }

    /// Tears the context down. Gives `true` when nothing outlived it: no value
    /// with a reference left, and no scratch buffer still lent out.
    pub fn close(self) -> (clean: bool)
        requires
            self.wf(),
        ensures
            clean == (live_count(self@.heap) == 0 && self@.buffers == 0),
    {
        let n = self.live_values();
        n == 0 && self.buffers == 0
    }
}

/// The first `n` slots hold no live value exactly when none of them has a reference.
proof fn lemma_live_prefix_zero(heap: Seq<ValueState>, n: int)
    requires
        0 <= n <= heap.len(),
    ensures
        live_prefix(heap, n) == 0 <==> forall|i: int| 0 <= i < n ==> heap[i].refs == 0,
    decreases n,
{
    if n > 0 {
        lemma_live_prefix_zero(heap, n - 1);
        if live_prefix(heap, n) == 0 {
            assert forall|i: int| 0 <= i < n implies heap[i].refs == 0 by {
                if i < n - 1 {
                }
            }
        }
    }
}

/// A context tears down clean exactly when every value made in it has had all
/// of its references dropped: its leak count is zero if and only if no slot
/// still holds a reference.
pub proof fn lemma_clean_teardown(c: ContextView)
    ensures
        live_count(c.heap) == 0 <==> forall|i: int| 0 <= i < c.heap.len() ==> c.heap[i].refs == 0,
{
    lemma_live_prefix_zero(c.heap, c.heap.len() as int);
}

} // verus!
