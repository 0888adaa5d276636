//! The decisions made while a mirrored memory map is built.
//!
//! The platform work (opening an anonymous memory file, reserving address
//! space, mapping the file twice over the reservation, locking and advising)
//! is done by the caller, one step at a time, in the order of the methods
//! below; each method takes the step's outcome and says whether construction
//! goes on and with what.

use vstd::prelude::*;
use crate::errors::{MirroredMemoryMapCreationError, OsErrorNumber};
use crate::mirror::{MemoryRegion, MirroredMemoryMap, VirtualAddress};
use crate::offset::{is_a_power_of_two, is_power_of_two};

verus! {

/// The error number given when a reservation could not hold the whole mirror
/// below the top of the address space (as `ENOMEM` from the platform).
pub const ADDRESS_SPACE_EXHAUSTED: OsErrorNumber = 12;

/// The buffer and mirror lengths for a platform-chosen buffer size.
///
/// `suitable_buffer_size` is the platform's best fit for
/// `preferred_buffer_size` under the waste budget: a power-of-two multiple of
/// a page that is at least the preferred size, or `None` when there is none
/// within `2^63`.
pub fn round_up_to_huge_page_size(preferred_buffer_size: u64, suitable_buffer_size: Option<u64>) -> (r: Result<(u64, u64), MirroredMemoryMapCreationError>)
    ensures
        match suitable_buffer_size {
            Some(b) if is_power_of_two(b) && preferred_buffer_size <= b => {
                if 2 * b <= u64::MAX {
                    r == Ok::<(u64, u64), MirroredMemoryMapCreationError>((b, (2 * b) as u64))
                } else {
                    r == Err::<(u64, u64), MirroredMemoryMapCreationError>(MirroredMemoryMapCreationError::BufferSizeRequiredMirrorSizeLargerThanTheLargestPowerOfTwoInAnU64(preferred_buffer_size))
                }
            },
            _ => r == Err::<(u64, u64), MirroredMemoryMapCreationError>(MirroredMemoryMapCreationError::BufferSizeWouldBeLargerThanTheLargestPowerOfTwoInAnU64(preferred_buffer_size)),
        },
{
    match suitable_buffer_size {
        Some(b) => {
            if !is_a_power_of_two(b) || b < preferred_buffer_size {
                return Err(MirroredMemoryMapCreationError::BufferSizeWouldBeLargerThanTheLargestPowerOfTwoInAnU64(preferred_buffer_size));
            }
            match b.checked_mul(2) {
                Some(mirror) => Ok((b, mirror)),
                None => Err(MirroredMemoryMapCreationError::BufferSizeRequiredMirrorSizeLargerThanTheLargestPowerOfTwoInAnU64(preferred_buffer_size)),
            }
        },
        None => Err(MirroredMemoryMapCreationError::BufferSizeWouldBeLargerThanTheLargestPowerOfTwoInAnU64(preferred_buffer_size)),
    }
}

/// The steps of construction, in the order they are taken.
#[derive(Clone, Copy, Debug, PartialEq, Eq, Structural)]
pub enum MirrorConstructionStep {
    /// An anonymous memory file is to be opened.
    OpenMemoryFile,
    /// The memory file's length is to be set to the buffer size.
    SetMemoryFileLength,
    /// Twice the buffer size of address space is to be reserved.
    ReserveAddressSpace,
    /// The memory file is to be mapped over the first half.
    MapFirstHalf,
    /// The memory file is to be mapped over the second half.
    MapSecondHalf,
    /// The whole reservation is to be locked into memory.
    LockMemory,
    /// The whole reservation is to be advised `DontFork`.
    AdviseDontFork,
}

/// A mirrored memory map part way through construction.
#[derive(Clone, Copy, Debug, PartialEq, Eq, Structural)]
pub struct MirroredMemoryMapConstruction {
    /// The step to take next.
    pub step: MirrorConstructionStep,
    /// The buffer size `N`.
    pub buffer_size: u64,
    /// The base address of the reservation, once it is made.
    pub virtual_address: VirtualAddress,
}

impl MirroredMemoryMapConstruction {
    /// The buffer size is a power of two whose mirror fits in a `u64`; once
    /// the reservation is made, the whole mirror lies below the top of the
    /// address space.
    pub open spec fn wf(self) -> bool {
        &&& is_power_of_two(self.buffer_size)
        &&& 2 * self.buffer_size <= u64::MAX
        &&& (self.step != MirrorConstructionStep::OpenMemoryFile
            && self.step != MirrorConstructionStep::SetMemoryFileLength
            && self.step != MirrorConstructionStep::ReserveAddressSpace)
            ==> self.virtual_address.0 + 2 * self.buffer_size <= u64::MAX
    }

    /// The state after a successful step.
    pub open spec fn at(self, step: MirrorConstructionStep) -> Self {
        MirroredMemoryMapConstruction { step, ..self }
    }

    /// Starts construction of a mirror of `buffer_size` bytes (as given by
    /// [`round_up_to_huge_page_size`]).
    pub fn new(buffer_size: u64) -> (r: Self)
        requires
            is_power_of_two(buffer_size),
            2 * buffer_size <= u64::MAX,
        ensures
            r.wf(),
            r.step == MirrorConstructionStep::OpenMemoryFile,
            r.buffer_size == buffer_size,
    {
        MirroredMemoryMapConstruction {
            step: MirrorConstructionStep::OpenMemoryFile,
            buffer_size,
            virtual_address: VirtualAddress(0),
        }
    }

    /// The total length reserved, `2N`.
    pub fn mirror_length(&self) -> (r: u64)
        requires
            self.wf(),
        ensures
            r == 2 * self.buffer_size,
    {
        2 * self.buffer_size
    }

    /// Takes the outcome of opening the anonymous memory file.
    pub fn memory_file_opened(self, outcome: Result<(), OsErrorNumber>) -> (r: Result<Self, MirroredMemoryMapCreationError>)
        requires
            self.wf(),
            self.step == MirrorConstructionStep::OpenMemoryFile,
        ensures
            match outcome {
                Ok(()) => r == Ok::<Self, MirroredMemoryMapCreationError>(self.at(MirrorConstructionStep::SetMemoryFileLength)),
                Err(e) => r == Err::<Self, MirroredMemoryMapCreationError>(MirroredMemoryMapCreationError::CouldNotOpenMemFd(e)),
            },
            r matches Ok(s) ==> s.wf(),
    {
        match outcome {
            Ok(()) => Ok(MirroredMemoryMapConstruction { step: MirrorConstructionStep::SetMemoryFileLength, ..self }),
            Err(e) => Err(MirroredMemoryMapCreationError::CouldNotOpenMemFd(e)),
        }
    }

    /// Takes the outcome of setting the memory file's length to `N`.
    pub fn memory_file_length_set(self, outcome: Result<(), OsErrorNumber>) -> (r: Result<Self, MirroredMemoryMapCreationError>)
        requires
            self.wf(),
            self.step == MirrorConstructionStep::SetMemoryFileLength,
        ensures
            match outcome {
                Ok(()) => r == Ok::<Self, MirroredMemoryMapCreationError>(self.at(MirrorConstructionStep::ReserveAddressSpace)),
                Err(e) => r == Err::<Self, MirroredMemoryMapCreationError>(MirroredMemoryMapCreationError::CouldNotSetLength(e)),
            },
            r matches Ok(s) ==> s.wf(),
    {
        match outcome {
            Ok(()) => Ok(MirroredMemoryMapConstruction { step: MirrorConstructionStep::ReserveAddressSpace, ..self }),
            Err(e) => Err(MirroredMemoryMapCreationError::CouldNotSetLength(e)),
        }
    }

    /// Takes the outcome of reserving `2N` bytes of inaccessible address
    /// space: its base address `V`, or an error.
    pub fn address_space_reserved(self, outcome: Result<VirtualAddress, OsErrorNumber>) -> (r: Result<Self, MirroredMemoryMapCreationError>)
        requires
            self.wf(),
            self.step == MirrorConstructionStep::ReserveAddressSpace,
        ensures
            match outcome {
                Ok(v) => if v.0 + 2 * self.buffer_size <= u64::MAX {
                    r == Ok::<Self, MirroredMemoryMapCreationError>(MirroredMemoryMapConstruction { step: MirrorConstructionStep::MapFirstHalf, virtual_address: v, ..self })
                } else {
                    r == Err::<Self, MirroredMemoryMapCreationError>(MirroredMemoryMapCreationError::CouldNotCreateFirstMemoryMapping(ADDRESS_SPACE_EXHAUSTED))
                },
                Err(e) => r == Err::<Self, MirroredMemoryMapCreationError>(MirroredMemoryMapCreationError::CouldNotCreateFirstMemoryMapping(e)),
            },
            r matches Ok(s) ==> s.wf(),
    {
        match outcome {
            Ok(v) => {
                if v.0 > u64::MAX - 2 * self.buffer_size {
                    Err(MirroredMemoryMapCreationError::CouldNotCreateFirstMemoryMapping(ADDRESS_SPACE_EXHAUSTED))
                } else {
                    Ok(MirroredMemoryMapConstruction { step: MirrorConstructionStep::MapFirstHalf, virtual_address: v, ..self })
                }
            },
            Err(e) => Err(MirroredMemoryMapCreationError::CouldNotCreateFirstMemoryMapping(e)),
        }
    }

    /// Where the overlay of the current step must land: `V` for the first
    /// half, `V + N` for the second.
    pub fn overlay_address(&self) -> (r: VirtualAddress)
        requires
            self.wf(),
            self.step == MirrorConstructionStep::MapFirstHalf || self.step == MirrorConstructionStep::MapSecondHalf,
        ensures
            self.step == MirrorConstructionStep::MapFirstHalf ==> r == self.virtual_address,
            self.step == MirrorConstructionStep::MapSecondHalf ==> r.0 == self.virtual_address.0 + self.buffer_size,
    {
        if self.step == MirrorConstructionStep::MapFirstHalf {
            self.virtual_address
        } else {
            VirtualAddress(self.virtual_address.0 + self.buffer_size)
        }
    }

    /// Takes the outcome of mapping the memory file (shared, read and write,
    /// at a fixed address) over the current half: the address where the
    /// overlay landed, or an error. An overlay that landed anywhere but
    /// [`Self::overlay_address`] is a failure.
    pub fn half_mapped(self, outcome: Result<VirtualAddress, OsErrorNumber>, misplaced: OsErrorNumber) -> (r: Result<Self, MirroredMemoryMapCreationError>)
        requires
            self.wf(),
            self.step == MirrorConstructionStep::MapFirstHalf || self.step == MirrorConstructionStep::MapSecondHalf,
        ensures
            ({
                let wanted = if self.step == MirrorConstructionStep::MapFirstHalf {
                    self.virtual_address.0 as int
                } else {
                    self.virtual_address.0 + self.buffer_size
                };
                let next = if self.step == MirrorConstructionStep::MapFirstHalf {
                    MirrorConstructionStep::MapSecondHalf
                } else {
                    MirrorConstructionStep::LockMemory
                };
                match outcome {
                    Ok(v) => if v.0 == wanted {
                        r == Ok::<Self, MirroredMemoryMapCreationError>(self.at(next))
                    } else {
                        r == Err::<Self, MirroredMemoryMapCreationError>(MirroredMemoryMapCreationError::CouldNotCreateSecondMemoryMapping(misplaced))
                    },
                    Err(e) => r == Err::<Self, MirroredMemoryMapCreationError>(MirroredMemoryMapCreationError::CouldNotCreateSecondMemoryMapping(e)),
                }
            }),
            r matches Ok(s) ==> s.wf(),
    {
        let wanted = self.overlay_address();
        match outcome {
            Ok(v) => {
                if v != wanted {
                    Err(MirroredMemoryMapCreationError::CouldNotCreateSecondMemoryMapping(misplaced))
                } else if self.step == MirrorConstructionStep::MapFirstHalf {
                    Ok(MirroredMemoryMapConstruction { step: MirrorConstructionStep::MapSecondHalf, ..self })
                } else {
                    Ok(MirroredMemoryMapConstruction { step: MirrorConstructionStep::LockMemory, ..self })
                }
            },
            Err(e) => Err(MirroredMemoryMapCreationError::CouldNotCreateSecondMemoryMapping(e)),
        }
    }

    /// The whole reservation, `[V, V + 2N)`, to lock and advise.
    pub fn reservation(&self) -> (r: MemoryRegion)
        requires
            self.wf(),
            self.step == MirrorConstructionStep::LockMemory || self.step == MirrorConstructionStep::AdviseDontFork,
        ensures
            r.address == self.virtual_address,
            r.length == 2 * self.buffer_size,
    {
        MemoryRegion { address: self.virtual_address, length: 2 * self.buffer_size }
    }

    /// Takes the outcome of locking the reservation: whether the whole range
    /// was locked, or an error. A partial lock is a failure.
    pub fn lock_memory(self, outcome: Result<bool, OsErrorNumber>) -> (r: Result<Self, MirroredMemoryMapCreationError>)
        requires
            self.wf(),
            self.step == MirrorConstructionStep::LockMemory,
        ensures
            match outcome {
                Ok(true) => r == Ok::<Self, MirroredMemoryMapCreationError>(self.at(MirrorConstructionStep::AdviseDontFork)),
                Ok(false) => r == Err::<Self, MirroredMemoryMapCreationError>(MirroredMemoryMapCreationError::CouldNotLockAllMemory),
                Err(e) => r == Err::<Self, MirroredMemoryMapCreationError>(MirroredMemoryMapCreationError::CouldNotLockMemory(e)),
            },
            r matches Ok(s) ==> s.wf(),
    {
        match outcome {
            Ok(locked_all_memory) => {
                if locked_all_memory {
                    Ok(MirroredMemoryMapConstruction { step: MirrorConstructionStep::AdviseDontFork, ..self })
                } else {
                    Err(MirroredMemoryMapCreationError::CouldNotLockAllMemory)
                }
            },
            Err(e) => Err(MirroredMemoryMapCreationError::CouldNotLockMemory(e)),
        }
    }

    /// Takes the outcome of advising the reservation `DontFork`; on success
    /// the mirror is complete.
    pub fn advised(self, outcome: Result<(), OsErrorNumber>) -> (r: Result<MirroredMemoryMap, MirroredMemoryMapCreationError>)
        requires
            self.wf(),
            self.step == MirrorConstructionStep::AdviseDontFork,
        ensures
            match outcome {
                Ok(()) => r matches Ok(m) && m.wf() && m.base() == self.virtual_address.0 && m.size() == self.buffer_size,
                Err(e) => r == Err::<MirroredMemoryMap, MirroredMemoryMapCreationError>(MirroredMemoryMapCreationError::CouldNotAdviseMemory(e)),
            },
    {
        match outcome {
            Ok(()) => Ok(MirroredMemoryMap::from_mapping(self.virtual_address, self.buffer_size)),
            Err(e) => Err(MirroredMemoryMapCreationError::CouldNotAdviseMemory(e)),
        }
    }
}

} // verus!
