//! The ways in which constructing a ring can fail.

use vstd::prelude::*;

verus! {

/// An operating-system error number, as the platform layer reports it.
pub type OsErrorNumber = i32;

/// Why a mirrored memory map (and so a magic ring buffer) could not be made.
#[derive(Clone, Copy, Debug, PartialEq, Eq, Structural)]
pub enum MirroredMemoryMapCreationError {
    /// The preferred size, rounded up to a page, would exceed `2^63`.
    BufferSizeWouldBeLargerThanTheLargestPowerOfTwoInAnU64(u64),
    /// Twice the rounded buffer size (the mirror) does not fit in a `u64`.
    BufferSizeRequiredMirrorSizeLargerThanTheLargestPowerOfTwoInAnU64(u64),
    /// The anonymous memory file could not be opened.
    CouldNotOpenMemFd(OsErrorNumber),
    /// The anonymous memory file's length could not be set.
    CouldNotSetLength(OsErrorNumber),
    /// The address-space reservation could not be made.
    CouldNotCreateFirstMemoryMapping(OsErrorNumber),
    /// One of the two file-backed overlays could not be mapped, or did not
    /// land where it was asked to.
    CouldNotCreateSecondMemoryMapping(OsErrorNumber),
    /// Locking the mapping into memory failed.
    CouldNotLockMemory(OsErrorNumber),
    /// Only part of the mapping could be locked into memory.
    CouldNotLockAllMemory,
    /// The mapping could not be advised `DontFork`.
    CouldNotAdviseMemory(OsErrorNumber),
}

/// Why a large ring queue could not be made.
#[derive(Clone, Copy, Debug, PartialEq, Eq, Structural)]
pub enum LargeRingQueueCreationError {
    /// The element count rounded up to a power of two would exceed `2^63`.
    MaximumNumberOfElementsRoundedUpToAPowerOfTwoWouldBeLargerThanTheLargestPowerOfTwoInAnU64,
    /// The rounded element count times the element size would exceed `2^63`.
    MaximumNumberOfElementsRoundedUpToAPowerOfTwoAndScaledByTheSizeOfEachElementWouldBeLargerThanTheLargestPowerOfTwoInAnU64,
    /// No page-multiple buffer of at least the preferred size is within `2^63`
    /// and the allowed waste.
    BufferSizeWouldBeLargerThanTheLargestPowerOfTwoInAnU64,
    /// The mapping could not be made.
    CouldNotCreateMemoryMapping(OsErrorNumber),
    /// Locking the mapping into memory failed.
    CouldNotLockMemory(OsErrorNumber),
    /// Only part of the mapping could be locked into memory.
    CouldNotLockAllMemory,
    /// The mapping could not be advised `DontFork`.
    CouldNotAdviseMemory(OsErrorNumber),
}

} // verus!
