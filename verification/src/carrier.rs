use vstd::prelude::*;

use crate::heap::ErrorHeap;

verus! {

/// An owned, boundary-safe wrapper around an error message.
///
/// A carrier is created only by decoding an error reference: the decoder
/// reclaims the referenced bytes as the carrier's backing buffer, making
/// the carrier the buffer's sole owner from that moment on. Disposing of
/// the carrier consumes it and releases the buffer, so the buffer is
/// released at most once.
pub struct ExceptionCarrier {
    /// The message bytes, owned by this carrier alone. They are exactly
    /// the formatted message: the trailing terminator byte the encoder
    /// stored after them is not part of the carrier's message.
    what: Vec<u8>,
    /// The far-side address the backing buffer was reclaimed from.
    backing: usize,
}

/// What disposing of a carrier promises: the allocation service records
/// exactly one more release, and nothing else about it changes.
pub open spec fn dispose_post(h0: ErrorHeap, h1: ErrorHeap) -> bool {
    &&& h1.wf()
    &&& h1.released() == h0.released() + 1
    &&& h1.allocated() == h0.allocated()
    &&& forall|a: int| h1.live(a) <==> h0.live(a)
    &&& forall|a: int| h0.live(a) ==> h1.buf_of(a) == h0.buf_of(a)
}

impl ExceptionCarrier {
    /// The carried message's bytes.
    pub closed spec fn message(self) -> Seq<u8> {
        self.what@
    }

    /// The far-side address of the buffer this carrier took over.
    pub closed spec fn backing_addr(self) -> usize {
        self.backing
    }

    /// The one place a carrier comes into being: the decoder hands over
    /// the bytes it reclaimed from the allocation service. Deliberately
    /// not public, so no caller can forge a carrier.
    pub(crate) fn from_reclaimed(what: Vec<u8>, backing: usize) -> (c: ExceptionCarrier)
        ensures
            c.message() == what@,
            c.backing_addr() == backing,
    {
        ExceptionCarrier { what, backing }
    }

    /// Read access to the message bytes.
    pub fn what(&self) -> (m: &Vec<u8>)
        ensures
            m@ == self.message(),
    {
        &self.what
    }

    /// The message's byte length. The trailing terminator byte that the
    /// encoder appends for null-terminated consumers is never counted.
    pub fn message_len(&self) -> (n: usize)
        ensures
            n == self.message().len(),
    {
        self.what.len()
    }

    /// Dispose of the carrier, releasing its backing buffer. Disposal
    /// consumes the carrier, so each carrier's buffer is released
    /// exactly once.
    pub fn dispose(self, heap: &mut ErrorHeap)
        requires
            old(heap).wf(),
            old(heap).released() < usize::MAX,
        ensures
            dispose_post(*old(heap), *final(heap)),
    {
        heap.record_release();
    }
}

} // verus!
