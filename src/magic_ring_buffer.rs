//! A magic ring buffer: a lock-free byte ring for many producers and one
//! consumer over a mirrored memory map.
//!
//! A producer writes `n ≤ N` bytes in four steps, each a method here:
//! [`MagicRingBuffer::claim`] reserves `[start, end)`;
//! [`MagicRingBuffer::has_space_for`] is asked until the consumer has freed
//! room for the claim; the caller then fills [`MagicRingBuffer::write_region`]
//! (one contiguous run of bytes, whatever the wrap); and
//! [`MagicRingBuffer::try_commit`] is repeated until the claim is published.
//! The waits between the steps spin on the caller's side. The filling must
//! not fail: a claim that never commits blocks every later claim for good.

use vstd::prelude::*;
use crate::atomic_offset::CompareExchangeOnlyEverIncreasesMonotonicallyOffset;
use crate::mirror::{MemoryRegion, MirroredMemoryMap};
use crate::offset::{OnlyEverIncreasesMonotonicallyOffset, Size};
use crate::protocol::{has_space_for_claim, readable_bytes, readable_bytes_spec, space_for_claim, RingOffsets};

verus! {

/// The bytes `[start, end)` that one producer reserved.
#[derive(Clone, Copy, Debug, PartialEq, Eq, Structural)]
pub struct WriteClaim {
    /// The first offset of the claim.
    pub start: OnlyEverIncreasesMonotonicallyOffset,
    /// One past the last offset of the claim.
    pub end: OnlyEverIncreasesMonotonicallyOffset,
    /// The number of bytes claimed.
    pub length: Size,
}

/// A magic ring buffer (also known as a virtual or mirrored ring buffer).
#[derive(Debug)]
pub struct MagicRingBuffer {
    writer_offset: CompareExchangeOnlyEverIncreasesMonotonicallyOffset,
    unread_offset: CompareExchangeOnlyEverIncreasesMonotonicallyOffset,
    read_offset: CompareExchangeOnlyEverIncreasesMonotonicallyOffset,
    mirrored_memory_map: MirroredMemoryMap,
}

impl MagicRingBuffer {
    /// The mirror the ring lives in.
    pub closed spec fn map(&self) -> MirroredMemoryMap {
        self.mirrored_memory_map
    }

    /// The ring's mirror is well formed.
    pub open spec fn wf(&self) -> bool {
        self.map().wf()
    }

    /// A region lies inside the mirror, `[V, V + 2N)`.
    pub open spec fn holds(&self, region: MemoryRegion) -> bool {
        &&& self.map().base() <= region.address.0
        &&& region.address.0 + region.length <= self.map().base() + 2 * self.map().size()
    }

    /// A ring over `mirrored_memory_map`, with all three offsets at zero.
    pub fn allocate(mirrored_memory_map: MirroredMemoryMap) -> (r: Self)
        requires
            mirrored_memory_map.wf(),
        ensures
            r.wf(),
            r.map() == mirrored_memory_map,
    {
        MagicRingBuffer {
            writer_offset: CompareExchangeOnlyEverIncreasesMonotonicallyOffset::zero(),
            unread_offset: CompareExchangeOnlyEverIncreasesMonotonicallyOffset::zero(),
            read_offset: CompareExchangeOnlyEverIncreasesMonotonicallyOffset::zero(),
            mirrored_memory_map,
        }
    }

    /// On restart over persistent memory, drops every claim not yet
    /// committed by setting `writer` to `unread`. Committed bytes stay
    /// readable; bytes already read may be delivered again.
    pub fn recovery_if_using_persistent_memory(&self) {
        self.writer_offset.set(self.unread_offset.get())
    }

    /// Reserves the next `amount` bytes for one producer.
    pub fn claim(&self, amount: usize) -> (r: WriteClaim)
        requires
            self.wf(),
            amount <= self.map().size(),
        ensures
            r.length.0 == amount,
            r.end.0 == r.start.0.wrapping_add(amount as u64),
    {
        let amount = Size::from(amount);
        let (start, end) = self.writer_offset.fetch_add(amount);
        WriteClaim { start, end, length: amount }
    }

    /// One back-pressure test for `claim`: `Some((unread, read))`, the
    /// offsets observed, once the consumer has freed room for the claim and
    /// every earlier one; `None` while it has not.
    pub fn has_space_for(&self, claim: WriteClaim) -> (r: Option<(OnlyEverIncreasesMonotonicallyOffset, OnlyEverIncreasesMonotonicallyOffset)>)
        requires
            self.wf(),
        ensures
            r matches Some((unread, read)) ==> space_for_claim(unread.0, read.0, claim.end.0, self.map().size() as u64),
    {
        let current_unread_offset = self.unread_offset.get();
        let current_read_offset = self.read_offset.get();
        if has_space_for_claim(current_unread_offset.0, current_read_offset.0, claim.end.0, self.mirrored_memory_map.buffer_size().u64()) {
            Some((current_unread_offset, current_read_offset))
        } else {
            None
        }
    }

    /// The bytes a producer fills for `claim`: `length` bytes from the
    /// address of `start`, one contiguous run inside the mirror.
    pub fn write_region(&self, claim: WriteClaim) -> (r: MemoryRegion)
        requires
            self.wf(),
            claim.length.0 <= self.map().size(),
        ensures
            r.address.0 == self.map().address_of(claim.start.0),
            r.length == claim.length.0,
            self.holds(r),
    {
        self.mirrored_memory_map.region(claim.start, claim.length)
    }

    /// One attempt to publish `claim`: moves `unread` from the claim's start
    /// to its end. It succeeds only once every earlier claim has committed,
    /// so commits happen in claim order and leave no holes.
    pub fn try_commit(&self, claim: WriteClaim) -> (r: bool)
        requires
            claim.start.0 <= claim.end.0,
    {
        match self.unread_offset.try_to_update(claim.start, claim.end) {
            Ok(()) => true,
            Err(_was) => false,
        }
    }

    /// Reads, assuming this is the only consumer (which is not enforced).
    ///
    /// Hands `reader` the published bytes `[read, unread)` as one contiguous
    /// run inside the mirror; `reader` says how many of them it consumed and
    /// whether it succeeded. The read cursor advances by that many either
    /// way. Returns the reader's error, or whether more bytes are published
    /// and unread afterwards.
    pub fn single_reader_read_some_data<E, Reader: FnOnce(MemoryRegion) -> (usize, Result<(), E>)>(&self, reader: Reader) -> (r: Result<bool, E>)
        requires
            self.wf(),
            forall|region: MemoryRegion| self.holds(region) ==> call_requires(reader, (region,)),
            forall|region: MemoryRegion, out: (usize, Result<(), E>)|
                call_ensures(reader, (region,), out) ==> out.0 <= region.length,
        ensures
            exists|region: MemoryRegion, out: (usize, Result<(), E>)| {
                &&& self.holds(region)
                &&& region.length <= self.map().size()
                &&& call_ensures(reader, (region,), out)
                &&& match out.1 {
                    Ok(()) => r is Ok,
                    Err(e) => r == Err::<bool, E>(e),
                }
            },
    {
        let (_current_unread_offset, current_read_offset, unread) = self.current_unread_offset_and_current_read_offset_and_unread();
        let region = self.mirrored_memory_map.region(current_read_offset, unread);
        assert(self.holds(region));
        let (actually_read, outcome) = reader(region);
        let updated_read_offset = current_read_offset.add(Size::from(actually_read));
        self.read_offset.set(updated_read_offset);
        match outcome {
            Err(error) => Err(error),
            Ok(()) => {
                let (_current_unread_offset, _current_read_offset, unread) = self.current_unread_offset_and_current_read_offset_and_unread();
                Ok(unread.u64() != 0)
            },
        }
    }

    /// Observes the three offsets, one after another: `read`, then
    /// `unread`, then `writer`.
    pub fn offsets(&self) -> (r: RingOffsets) {
        let read = self.read_offset.get();
        let unread = self.unread_offset.get();
        let writer = self.writer_offset.get();
        RingOffsets { writer: writer.0, unread: unread.0, read: read.0 }
    }

    /// The buffer size `N`.
    pub fn unmirrored_buffer_size(&self) -> (r: Size)
        ensures
            r.0 == self.map().size(),
    {
        self.mirrored_memory_map.buffer_size()
    }

    /// Observes `unread` and then `read`, and the number of bytes readable
    /// between them (never more than `N`).
    fn current_unread_offset_and_current_read_offset_and_unread(&self) -> (r: (OnlyEverIncreasesMonotonicallyOffset, OnlyEverIncreasesMonotonicallyOffset, Size))
        requires
            self.wf(),
        ensures
            r.2.0 == readable_bytes_spec(r.0.0, r.1.0, self.map().size() as u64),
            r.2.0 <= self.map().size(),
            r.1.0 + r.2.0 <= u64::MAX,
    {
        let current_unread_offset = self.unread_offset.get();
        let current_read_offset = self.read_offset.get();
        let unread = readable_bytes(current_unread_offset.0, current_read_offset.0, self.mirrored_memory_map.buffer_size().u64());
        (current_unread_offset, current_read_offset, Size(unread))
    }

    /// The address that `offset` projects to.
    pub fn real_pointer(&self, offset: OnlyEverIncreasesMonotonicallyOffset) -> (r: crate::mirror::VirtualAddress)
        requires
            self.wf(),
        ensures
            r.0 == self.map().address_of(offset.0),
    {
        self.mirrored_memory_map.pointer(offset)
    }
}

} // verus!
