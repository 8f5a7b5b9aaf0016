use vstd::prelude::*;

verus! {

/// The fixed-size binary union that a boundary function returns by value.
///
/// On the wire this is two machine words. The first word doubles as the
/// discriminator: a null address means success (the payload was already
/// written into the caller's output slot, so nothing more is carried),
/// while a non-null address, paired with a byte length, references an
/// error message owned by the far side until it is reclaimed by decoding.
///
/// The type deliberately has no `Copy` or `Clone`: a given outcome is
/// decoded at most once, and consuming it by value enforces that.
pub enum BinaryOutcome {
    /// Success; the payload already sits in the caller's output slot.
    Empty,
    /// Failure; `addr` and `len` locate the error message's bytes on the
    /// far side. `len` counts the message bytes only, never the trailing
    /// terminator byte stored after them.
    ErrorRef { addr: usize, len: usize },
}

impl BinaryOutcome {
    /// The first machine word of the wire representation: the
    /// discriminating address, which is null (zero) exactly on success.
    pub open spec fn wire_first_word(self) -> usize {
        match self {
            BinaryOutcome::Empty => 0,
            BinaryOutcome::ErrorRef { addr, .. } => addr,
        }
    }

    /// The byte length carried by an error reference; zero on success.
    pub open spec fn ref_len(self) -> usize {
        match self {
            BinaryOutcome::Empty => 0,
            BinaryOutcome::ErrorRef { len, .. } => len,
        }
    }

    /// A well-formed outcome never uses the null address for an error
    /// reference: nullness is reserved as the success discriminator.
    pub open spec fn wf(self) -> bool {
        match self {
            BinaryOutcome::Empty => true,
            BinaryOutcome::ErrorRef { addr, .. } => addr != 0,
        }
    }

    /// Read the discriminating first wire word without consuming the
    /// outcome: null exactly on success.
    pub fn first_word(&self) -> (w: usize)
        ensures
            w == self.wire_first_word(),
    {
        match self {
            BinaryOutcome::Empty => 0,
            BinaryOutcome::ErrorRef { addr, .. } => *addr,
        }
    }
}

/// Discriminator correctness: for every well-formed outcome, the first
/// wire word is null if and only if the outcome is the success case.
pub proof fn lemma_discriminator(o: BinaryOutcome)
    requires
        o.wf(),
    ensures
        o.wire_first_word() == 0 <==> (o is Empty),
{
}

} // verus!
