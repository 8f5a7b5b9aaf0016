use vstd::prelude::*;

verus! {

/// A model of the far side's error-allocation service.
///
/// The encoder hands the service an error message's bytes; the service
/// stores a durable copy and answers with a stable, non-null address.
/// The decoder later reclaims the buffer at that address exactly once,
/// and the exception carrier built from it reports the buffer's release
/// back here when it is disposed of. The service therefore also acts as
/// an allocation tracker: `allocated` and `released` count the two ends
/// of every buffer's life, so a caller can observe that they stay
/// matched one to one.
pub struct ErrorHeap {
    /// Every buffer the service has ever stored, at address minus one.
    /// Entries are never removed; an address whose buffer has been
    /// reclaimed is retired in `reclaimed` instead, so addresses stay
    /// stable and are never reused.
    store: Vec<Vec<u8>>,
    /// Addresses whose buffer ownership has moved to an exception
    /// carrier; they are no longer live.
    reclaimed: Ghost<Set<int>>,
    /// How many backing buffers have been released so far.
    released: usize,
}

impl ErrorHeap {
    /// Internal consistency: only allocated addresses can be retired.
    pub closed spec fn wf(self) -> bool {
        forall|a: int| self.reclaimed@.contains(a) ==> 1 <= a <= self.store@.len()
    }

    /// How many buffers the service has allocated since construction.
    pub closed spec fn allocated(self) -> nat {
        self.store@.len()
    }

    /// How many backing buffers have been released so far.
    pub closed spec fn released(self) -> nat {
        self.released as nat
    }

    /// Whether `addr` addresses a live buffer: one that was allocated
    /// and has not yet been reclaimed by a decode.
    pub closed spec fn live(self, addr: int) -> bool {
        1 <= addr <= self.store@.len() && !self.reclaimed@.contains(addr)
    }

    /// The bytes stored at `addr`, for an allocated address.
    pub closed spec fn buf_of(self, addr: int) -> Seq<u8> {
        self.store@[addr - 1]@
    }

    /// A fresh service with no allocations.
    pub fn new() -> (h: ErrorHeap)
        ensures
            h.wf(),
            h.allocated() == 0,
            h.released() == 0,
            forall|a: int| !h.live(a),
    {
        ErrorHeap { store: Vec::new(), reclaimed: Ghost(Set::empty()), released: 0 }
    }

    /// Store a durable copy of `bytes` and return its address, which is
    /// never null: the null address is reserved as the success
    /// discriminator of the binary outcome.
    pub fn allocate(&mut self, bytes: Vec<u8>) -> (addr: usize)
        requires
            old(self).wf(),
        ensures
            final(self).wf(),
            addr != 0,
            addr == old(self).allocated() + 1,
            final(self).allocated() == old(self).allocated() + 1,
            final(self).released() == old(self).released(),
            !old(self).live(addr as int),
            final(self).live(addr as int),
            final(self).buf_of(addr as int) == bytes@,
            forall|a: int| a != addr ==> (final(self).live(a) <==> old(self).live(a)),
            forall|a: int|
                old(self).live(a) && a != addr ==> final(self).buf_of(a) == old(self).buf_of(a),
    {
        self.store.push(bytes);
        self.store.len()
    }

    /// Move the buffer at `addr` out of the service, retiring the
    /// address. This is the single point where ownership of a backing
    /// buffer leaves the far side; the decoder calls it at most once per
    /// error reference, since afterwards the address is no longer live.
    pub(crate) fn reclaim(&mut self, addr: usize) -> (bytes: Vec<u8>)
        requires
            old(self).wf(),
            old(self).live(addr as int),
        ensures
            final(self).wf(),
            bytes@ == old(self).buf_of(addr as int),
            !final(self).live(addr as int),
            final(self).allocated() == old(self).allocated(),
            final(self).released() == old(self).released(),
            forall|a: int| a != addr ==> (final(self).live(a) <==> old(self).live(a)),
            forall|a: int|
                old(self).live(a) && a != addr ==> final(self).buf_of(a) == old(self).buf_of(a),
    {
        let src = &self.store[addr - 1];
        let n = src.len();
        let mut bytes: Vec<u8> = Vec::new();
        let mut j: usize = 0;
        while j < n
            invariant
                j <= n,
                n == src@.len(),
                bytes@ == src@.subrange(0, j as int),
            decreases n - j,
        {
            bytes.push(src[j]);
            j += 1;
        }
        assert(bytes@ =~= src@);
        proof {
            self.reclaimed@ = self.reclaimed@.insert(addr as int);
        }
        bytes
    }

    /// How many buffers the service has allocated since construction.
    pub fn allocation_count(&self) -> (n: usize)
        ensures
            n == self.allocated(),
    {
        self.store.len()
    }

    /// How many backing buffers have been released so far.
    pub fn release_count(&self) -> (n: usize)
        ensures
            n == self.released(),
    {
        self.released
    }

    /// Record one release of a backing buffer; the exception carrier
    /// calls this when it is disposed of.
    pub(crate) fn record_release(&mut self)
        requires
            old(self).wf(),
            old(self).released() < usize::MAX,
        ensures
            final(self).wf(),
            final(self).released() == old(self).released() + 1,
            final(self).allocated() == old(self).allocated(),
            forall|a: int| final(self).live(a) <==> old(self).live(a),
            forall|a: int| old(self).live(a) ==> final(self).buf_of(a) == old(self).buf_of(a),
    {
        self.released = self.released + 1;
    }
}

} // verus!
