//! Pre-flight checks on a device under test.
//!
//! Probing a path for what it is — whole disk or partition, rotational or
//! solid-state — is platform work done outside the library; the probe's
//! findings arrive here as plain values, and the decision whether the test
//! may run on them is made, and verified, here.

use vstd::prelude::*;

verus! {

/// What the platform's device probe reports of a path.
#[derive(Clone, Copy, Debug, PartialEq, Eq, Structural)]
pub struct DeviceShape {
    /// The path names a partition rather than a whole disk.
    pub is_partition: bool,
    /// The medium is a spinning disk.
    pub is_rotational: bool,
}

/// The overrides a user may give to run the test despite a failed check.
#[derive(Clone, Copy, Debug, PartialEq, Eq, Structural)]
pub struct Overrides {
    /// Run even if the path is a block device but not a whole disk.
    pub allow_any_block_device: bool,
    /// Run even if the medium is not a spinning disk.
    pub allow_any_media: bool,
}

/// Why a device was refused before any byte was written.
#[derive(Clone, Copy, Debug, PartialEq, Eq, Structural)]
pub enum SanityError {
    /// The device is a partition and testing partitions was not allowed.
    Partition,
    /// The medium is not a rotational disk — the test may be harmful to
    /// solid-state drives — and other media were not allowed.
    Media,
}

/// Decides whether the destructive test may run on a device of the given
/// shape: a partition is refused unless partitions are allowed, then a
/// non-rotational medium is refused unless any medium is allowed.
pub fn sanity_checks(overrides: Overrides, shape: DeviceShape) -> (r: Result<(), SanityError>)
    ensures
        r is Ok <==> ((!shape.is_partition || overrides.allow_any_block_device) && (
        shape.is_rotational || overrides.allow_any_media)),
        shape.is_partition && !overrides.allow_any_block_device ==> r == Err::<(), SanityError>(
            SanityError::Partition,
        ),
        (!shape.is_partition || overrides.allow_any_block_device) && !shape.is_rotational
            && !overrides.allow_any_media ==> r == Err::<(), SanityError>(SanityError::Media),
{
    if shape.is_partition && !overrides.allow_any_block_device {
        return Err(SanityError::Partition);
    }
    if !shape.is_rotational && !overrides.allow_any_media {
        return Err(SanityError::Media);
    }
    Ok(())
}

} // verus!
