//! One device session: the write phase followed by the read-back phase.
//!
//! The orchestrator around the library runs one session per device; here
//! the two phases are chained against one backing store, which shows the
//! central guarantee of the whole design: with the same seed and buffer
//! size on both sides, an undisturbed store always verifies clean.

use vstd::prelude::*;

use crate::metadata::TestError;
use crate::metadata::TestOptions;
use crate::read_test::lemma_write_then_verify_clean;
use crate::read_test::read_back;
use crate::store::BackingStore;
use crate::write_test::QUEUE_BOUND;

verus! {

/// Runs one full session against the store: the write phase covers the
/// whole capacity with the stream of the session's seed, then the read-back
/// phase re-derives that stream from the seed alone and scans the store.
/// Nothing disturbs the store between the phases here, so the session always
/// completes and the scan is guaranteed to report full agreement; on a real
/// device, what the medium lost between writing and reading is exactly what
/// the scan would report.
pub fn run_session(blockdev: &mut BackingStore, opts: &TestOptions) -> (r: Result<
    Result<(), usize>,
    TestError,
>)
    requires
        old(blockdev).wf(),
        opts.valid(),
        old(blockdev).capacity() <= usize::MAX,
        old(blockdev).capacity() + (QUEUE_BOUND + 1) * opts.buffer_size <= u64::MAX,
    ensures
        r is Ok,
        final(blockdev).wf(),
        final(blockdev).capacity() == old(blockdev).capacity(),
        r matches Ok(outcome) ==> outcome is Ok,
        final(blockdev).contents() == crate::crypto::keystream(
            opts.seed,
            0,
            old(blockdev).capacity(),
        ),
{
    match crate::write_test::write(blockdev, opts) {
        Ok(()) => {},
        Err(e) => {
            return Err(e);
        },
    }
    proof {
        lemma_write_then_verify_clean(opts.seed, blockdev.contents(), opts.buffer_size as int);
    }
    read_back(blockdev, opts)
}

} // verus!
