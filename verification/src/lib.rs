//! A memory-safe model of a binary protocol for carrying a fallible
//! computation's outcome across a two-language call boundary.
//!
//! A boundary function writes its success payload into a caller-supplied
//! slot and returns a fixed-size [`outcome::BinaryOutcome`]: a null first
//! word for success, or an address and byte length referencing an error
//! message held by the far side's error-allocation service, modelled here
//! by [`heap::ErrorHeap`]. The caller decodes that outcome into either
//! "no error" or an owned [`carrier::ExceptionCarrier`] whose backing
//! buffer is released exactly once.

pub mod carrier;
pub mod codec;
pub mod heap;
pub mod outcome;
