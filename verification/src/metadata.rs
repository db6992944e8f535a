//! Options shared between the write and the read-back phase of one session.

use vstd::prelude::*;

verus! {

/// The immutable options of one device session.
///
/// The same `seed` and the same `buffer_size` must be used for the write
/// phase and for the read-back phase of one device: the expected data is
/// never stored, it is re-derived from the seed, and the keystream is
/// consumed in `buffer_size` chunks on both sides.
pub struct TestOptions {
    /// Size in bytes of every generated, written and compared chunk.
    pub buffer_size: usize,
    /// Seed from which the whole pseudorandom stream is derived.
    pub seed: u64,
    /// Addressable capacity of the device under test, in bytes.
    pub device_capacity: u64,
}

impl TestOptions {
    /// Options a session accepts: chunks must be non-empty.
    pub open spec fn valid(self) -> bool {
        self.buffer_size > 0
    }
}

/// The fault class of a phase's interface.  Capacity exhaustion during the
/// write phase and data mismatches during read-back are not faults and are
/// reported through ordinary return values; the one variant covers the
/// cipher behind the stream, and the phases' contracts prove that on their
/// admitted inputs it cannot arise, so every phase is owed success.
#[derive(Clone, Copy, Debug, PartialEq, Eq, Structural)]
pub enum TestError {
    /// The cipher backing the stream generator failed to apply its keystream.
    CipherFault,
}

} // verus!
