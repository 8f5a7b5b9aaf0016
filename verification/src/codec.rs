use vstd::prelude::*;

use crate::carrier::ExceptionCarrier;
use crate::heap::ErrorHeap;
use crate::outcome::BinaryOutcome;

verus! {

/// What encoding promises, relating the allocation service before
/// (`h0`) and after (`h1`) the call, the caller's output slot after the
/// call, the computation's outcome, and the returned binary outcome.
///
/// On success the payload sits in the slot, the returned outcome is the
/// empty (null) one, and the service is untouched. On failure the slot
/// is untouched, the service holds one new live buffer with the message
/// bytes followed by the one-byte terminator, and the returned outcome
/// references that buffer, with a length that excludes the terminator.
pub open spec fn encode_post<T>(
    h0: ErrorHeap,
    h1: ErrorHeap,
    slot: Option<T>,
    outcome: Result<T, Vec<u8>>,
    r: BinaryOutcome,
) -> bool {
    match outcome {
        Ok(v) => r is Empty && slot == Some(v) && h1 == h0,
        Err(m) => {
            &&& slot is None
            &&& (r matches BinaryOutcome::ErrorRef { addr, len } && {
                &&& addr == h0.allocated() + 1
                &&& len == m@.len()
                &&& h1.wf()
                &&& h1.allocated() == h0.allocated() + 1
                &&& h1.released() == h0.released()
                &&& !h0.live(addr as int)
                &&& h1.live(addr as int)
                &&& h1.buf_of(addr as int) == m@.push(0u8)
                &&& forall|a: int| a != addr ==> (h1.live(a) <==> h0.live(a))
                &&& forall|a: int|
                    h0.live(a) && a != addr ==> h1.buf_of(a) == h0.buf_of(a)
            })
        },
    }
}

/// When an outcome may be decoded against the service state `h`: an
/// error reference must have come from the encoder, that is, reference
/// a live buffer holding the message bytes followed by the one-byte
/// terminator. Decoding anything else never arises in a well-behaved
/// boundary call, and the decoder refuses to model it.
pub open spec fn decode_pre(h: ErrorHeap, o: BinaryOutcome) -> bool {
    match o {
        BinaryOutcome::Empty => true,
        BinaryOutcome::ErrorRef { addr, len } => {
            &&& h.live(addr as int)
            &&& h.buf_of(addr as int).len() == len + 1
        },
    }
}

/// What decoding promises. An empty outcome decodes to success and
/// touches nothing. An error reference decodes to a carrier that owns
/// exactly the message bytes (the stored buffer without its trailing
/// terminator byte); the referenced address stops being live, so the
/// same reference cannot be reclaimed again, and no release is recorded
/// yet: that happens when the carrier is disposed of.
pub open spec fn decode_post(
    h0: ErrorHeap,
    h1: ErrorHeap,
    o: BinaryOutcome,
    r: Result<(), ExceptionCarrier>,
) -> bool {
    match o {
        BinaryOutcome::Empty => r is Ok && h1 == h0,
        BinaryOutcome::ErrorRef { addr, len } => {
            &&& (r matches Err(c) && {
                &&& c.message() == h0.buf_of(addr as int).subrange(0, len as int)
                &&& c.message().len() == len
                &&& c.backing_addr() == addr
            })
            &&& h1.wf()
            &&& h1.allocated() == h0.allocated()
            &&& h1.released() == h0.released()
            &&& !h1.live(addr as int)
            &&& forall|a: int| a != addr ==> (h1.live(a) <==> h0.live(a))
            &&& forall|a: int|
                h0.live(a) && a != addr ==> h1.buf_of(a) == h0.buf_of(a)
        },
    }
}

/// Encode a fallible computation's outcome for the boundary.
///
/// A success value is written into the caller's output slot, which must
/// still be vacant, and the returned outcome is the empty one. A failure
/// message is handed to the error-allocation service with a terminator
/// byte appended, and the returned outcome references the stored buffer,
/// its length counting the message bytes only. A failure is never
/// degraded into a success, and the slot stays vacant on failure.
pub fn try_encode<T>(
    slot: &mut Option<T>,
    outcome: Result<T, Vec<u8>>,
    heap: &mut ErrorHeap,
) -> (r: BinaryOutcome)
    requires
        *old(slot) is None,
        old(heap).wf(),
    ensures
        r.wf(),
        final(heap).wf(),
        encode_post(*old(heap), *final(heap), *final(slot), outcome, r),
{
    match outcome {
        Ok(v) => {
            *slot = Some(v);
            BinaryOutcome::Empty
        },
        Err(m) => {
            let len = m.len();
            let mut bytes = m;
            bytes.push(0u8);
            let addr = heap.allocate(bytes);
            BinaryOutcome::ErrorRef { addr, len }
        },
    }
}

impl BinaryOutcome {
    /// Decode the outcome: `Ok(())` for the empty outcome, or the owned
    /// exception carrier reclaimed from an error reference.
    ///
    /// Consumes the outcome, so a given outcome value is decoded at most
    /// once; and reclaiming retires the referenced address, so even a
    /// forged second reference to the same address would find no live
    /// buffer.
    pub fn exception(self, heap: &mut ErrorHeap) -> (r: Result<(), ExceptionCarrier>)
        requires
            old(heap).wf(),
            decode_pre(*old(heap), self),
        ensures
            final(heap).wf(),
            decode_post(*old(heap), *final(heap), self, r),
    {
        match self {
            BinaryOutcome::Empty => Ok(()),
            BinaryOutcome::ErrorRef { addr, len } => {
                let mut bytes = heap.reclaim(addr);
                bytes.truncate(len);
                Err(ExceptionCarrier::from_reclaimed(bytes, addr))
            },
        }
    }
}

/// An outcome produced by encoding a failure is well formed and can be
/// decoded against the service state the encoder left behind.
pub proof fn lemma_encoded_error_decodable<T>(
    h0: ErrorHeap,
    h1: ErrorHeap,
    slot: Option<T>,
    m: Vec<u8>,
    r: BinaryOutcome,
)
    requires
        encode_post(h0, h1, slot, Err(m), r),
    ensures
        r.wf(),
        decode_pre(h1, r),
{
}

/// Round-trip success: for every payload value, encoding a success and
/// decoding the resulting outcome yields no error, the output slot holds
/// exactly the encoded value, and the allocation service is untouched.
pub proof fn lemma_round_trip_success<T>(
    h0: ErrorHeap,
    h1: ErrorHeap,
    h2: ErrorHeap,
    slot: Option<T>,
    v: T,
    r: BinaryOutcome,
    d: Result<(), ExceptionCarrier>,
)
    requires
        encode_post(h0, h1, slot, Ok(v), r),
        decode_post(h1, h2, r, d),
    ensures
        d is Ok,
        slot == Some(v),
        h2 == h0,
{
}

/// Round-trip failure: for every message, empty or not, encoding a
/// failure and decoding the resulting outcome yields a carrier whose
/// message is exactly the encoded bytes: no truncation, no corruption,
/// and no trace of the terminator byte.
pub proof fn lemma_round_trip_failure<T>(
    h0: ErrorHeap,
    h1: ErrorHeap,
    h2: ErrorHeap,
    slot: Option<T>,
    m: Vec<u8>,
    r: BinaryOutcome,
    d: Result<(), ExceptionCarrier>,
)
    requires
        encode_post(h0, h1, slot, Err(m), r),
        decode_post(h1, h2, r, d),
    ensures
        d matches Err(c) && c.message() == m@,
{
    let a = r.wire_first_word() as int;
    assert(h1.buf_of(a) == m@.push(0u8));
    assert(m@.push(0u8).subrange(0, m@.len() as int) =~= m@);
}

/// Terminator invisibility: the message length a carrier reports never
/// counts the trailing terminator byte; the buffer the encoder stored
/// is exactly one byte longer than the message the decoder hands out.
pub proof fn lemma_terminator_invisible<T>(
    h0: ErrorHeap,
    h1: ErrorHeap,
    h2: ErrorHeap,
    slot: Option<T>,
    m: Vec<u8>,
    r: BinaryOutcome,
    d: Result<(), ExceptionCarrier>,
)
    requires
        encode_post(h0, h1, slot, Err(m), r),
        decode_post(h1, h2, r, d),
    ensures
        d matches Err(c) && {
            &&& c.message().len() == r.ref_len()
            &&& c.message().len() + 1 == h1.buf_of(r.wire_first_word() as int).len()
        },
{
}

/// No double release: across encoding a failure, decoding the outcome
/// once, and disposing of the resulting carrier, the allocation service
/// records exactly one allocation and exactly one release, and the
/// buffer's address is no longer live, so nothing can reclaim it again.
pub proof fn lemma_single_release<T>(
    h0: ErrorHeap,
    h1: ErrorHeap,
    h2: ErrorHeap,
    h3: ErrorHeap,
    slot: Option<T>,
    m: Vec<u8>,
    r: BinaryOutcome,
    d: Result<(), ExceptionCarrier>,
)
    requires
        encode_post(h0, h1, slot, Err(m), r),
        decode_post(h1, h2, r, d),
        crate::carrier::dispose_post(h2, h3),
    ensures
        h3.allocated() == h0.allocated() + 1,
        h3.released() == h0.released() + 1,
        !h3.live(r.wire_first_word() as int),
{
}

} // verus!
