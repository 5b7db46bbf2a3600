//! Fatal conditions met while building a disk image.
//!
//! Image construction either completes fully or fails with one of these
//! errors; there is no partial-success state.

use vstd::prelude::*;

verus! {

/// The fatal conditions of image construction: configuration errors
/// (bad slot, unsupported size), bounds errors, and FAT16 capacity limits.
#[derive(Debug, Clone, Copy, PartialEq, Eq, Structural)]
pub enum BuildError {
    /// A partition slot outside 1..=4 was requested.
    InvalidPartitionNumber,
    /// The disk needs the extended ("large") geometry translation,
    /// which this builder does not provide.
    GeometryUnsupported,
    /// The disk is beyond the largest size any supported translation covers.
    DiskTooBig,
    /// A partition bound fell outside what the disk geometry can address.
    PartitionOutOfRange,
    /// Fewer sectors than FAT16 can represent.
    VolumeTooSmall,
    /// More sectors than FAT16 can represent.
    VolumeTooLarge,
    /// The computed FAT size does not fit its 16-bit BPB field.
    SectorsPerFatTooLarge,
    /// A media descriptor byte outside the legacy set.
    InvalidMediaDescriptor,
    /// The volume has too few free clusters left for a file.
    InsufficientFreeClusters,
}

} // verus!
