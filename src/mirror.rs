//! The geometry of a mirrored memory map: one physical region of `N` bytes
//! mapped twice, back to back, at `[V, V + N)` and `[V + N, V + 2N)`.

use vstd::prelude::*;
use crate::offset::{is_power_of_two, lemma_mask_is_mod, lemma_mask_of_shifted, OnlyEverIncreasesMonotonicallyOffset, Size};

verus! {

/// A virtual address, held as its numeric value.
#[derive(Clone, Copy, Debug, PartialEq, Eq, Structural)]
pub struct VirtualAddress(pub u64);

impl VirtualAddress {
    /// True unless this is the null address.
    pub fn is_not_null(self) -> (r: bool)
        ensures
            r == (self.0 != 0),
    {
        self.0 != 0
    }

    /// The address `offset` bytes further on.
    pub fn add(self, offset: Size) -> (r: VirtualAddress)
        requires
            self.0 + offset.0 <= u64::MAX,
        ensures
            r.0 == self.0 + offset.0,
    {
        VirtualAddress(self.0 + offset.0)
    }
}

/// A contiguous run of bytes in memory: `length` bytes from `address`.
#[derive(Clone, Copy, Debug, PartialEq, Eq, Structural)]
pub struct MemoryRegion {
    /// The first byte.
    pub address: VirtualAddress,
    /// The number of bytes.
    pub length: u64,
}

/// A mirrored mapping of a power-of-two buffer size `N` at base address `V`.
#[derive(Clone, Copy, Debug, PartialEq, Eq, Structural)]
pub struct MirroredMemoryMap {
    virtual_address: VirtualAddress,
    buffer_size: Size,
    ring_mask: u64,
}

impl MirroredMemoryMap {
    /// The base address `V`.
    pub closed spec fn base(self) -> int {
        self.virtual_address.0 as int
    }

    /// The buffer size `N`.
    pub closed spec fn size(self) -> int {
        self.buffer_size.0 as int
    }

    /// `N` is a power of two, the mask is `N - 1`, and both halves of the
    /// mirror lie within the address space.
    pub closed spec fn wf(self) -> bool {
        &&& is_power_of_two(self.buffer_size.0)
        &&& self.ring_mask == self.buffer_size.0 - 1
        &&& self.virtual_address.0 + 2 * self.buffer_size.0 <= u64::MAX
    }

    /// The address that `offset` projects to: `V + (offset mod N)`.
    pub open spec fn address_of(self, offset: u64) -> int {
        self.base() + (offset as int) % self.size()
    }

    /// Records a mirror of `buffer_size` bytes mapped twice from
    /// `virtual_address`.
    pub fn from_mapping(virtual_address: VirtualAddress, buffer_size: u64) -> (r: Self)
        requires
            is_power_of_two(buffer_size),
            virtual_address.0 + 2 * buffer_size <= u64::MAX,
        ensures
            r.wf(),
            r.base() == virtual_address.0,
            r.size() == buffer_size,
    {
        let buffer_size = Size(buffer_size);
        MirroredMemoryMap { virtual_address, buffer_size, ring_mask: buffer_size.to_ring_mask() }
    }

    /// The base address `V`.
    pub fn virtual_address(&self) -> (r: VirtualAddress)
        ensures
            r.0 == self.base(),
    {
        self.virtual_address
    }

    /// The buffer size `N` (half of what is mapped).
    pub fn buffer_size(&self) -> (r: Size)
        ensures
            r.0 == self.size(),
    {
        self.buffer_size
    }

    /// The address of `offset` in the first half of the mirror:
    /// `V + (offset & (N - 1))`.
    pub fn pointer(&self, offset: OnlyEverIncreasesMonotonicallyOffset) -> (r: VirtualAddress)
        requires
            self.wf(),
        ensures
            r.0 == self.address_of(offset.0),
            self.base() <= r.0 < self.base() + self.size(),
    {
        proof {
            lemma_mask_is_mod(offset.0, self.buffer_size.0);
        }
        let index = offset.bitand(self.ring_mask);
        self.virtual_address.add(Size(index))
    }

    /// The `length` bytes that start at `offset`, as one contiguous run.
    /// Because the buffer is mapped twice, the run lies inside the mapping
    /// however close to its end `offset` projects.
    pub fn region(&self, offset: OnlyEverIncreasesMonotonicallyOffset, length: Size) -> (r: MemoryRegion)
        requires
            self.wf(),
            length.0 <= self.size(),
        ensures
            r.address.0 == self.address_of(offset.0),
            r.length == length.0,
            self.base() <= r.address.0,
            r.address.0 + r.length <= self.base() + 2 * self.size(),
    {
        MemoryRegion { address: self.pointer(offset), length: length.0 }
    }
}

/// An offset and the same offset one buffer size later project to the same
/// address.
pub proof fn lemma_pointer_wraps(map: MirroredMemoryMap, offset: u64)
    requires
        map.wf(),
        offset + map.size() <= u64::MAX,
    ensures
        map.address_of(offset) == map.address_of((offset + map.size()) as u64),
{
    let n = map.buffer_size.0;
    lemma_mask_of_shifted(offset, n, 1);
    lemma_mask_is_mod(offset, n);
    lemma_mask_is_mod((offset + n) as u64, n);
}

/// The physical bytes after writing `bytes` through the mirror as one
/// contiguous run starting at index `at` of the first half: the run's byte
/// `j` lands on physical byte `(at + j) mod N`.
pub open spec fn written_through_mirror(physical: Seq<u8>, at: int, bytes: Seq<u8>) -> Seq<u8> {
    Seq::new(physical.len(), |i: int| {
        let j = (i - at) % (physical.len() as int);
        if j < bytes.len() { bytes[j] } else { physical[i] }
    })
}

/// The `length` bytes read through the mirror as one contiguous run from
/// index `at` of the first half.
pub open spec fn read_through_mirror(physical: Seq<u8>, at: int, length: nat) -> Seq<u8> {
    Seq::new(length, |j: int| physical[(at + j) % (physical.len() as int)])
}

/// Writing `k ≤ N` bytes from any index of the first half and reading `k`
/// bytes back from the same index gives the same bytes in the same order,
/// even when the run passes the end of the first half.
pub proof fn lemma_mirror_round_trip(physical: Seq<u8>, at: int, bytes: Seq<u8>)
    requires
        physical.len() > 0,
        0 <= at < physical.len(),
        bytes.len() <= physical.len(),
    ensures
        read_through_mirror(written_through_mirror(physical, at, bytes), at, bytes.len()) == bytes,
{
    let n = physical.len() as int;
    let written = written_through_mirror(physical, at, bytes);
    assert forall|j: int| 0 <= j < bytes.len() implies #[trigger] read_through_mirror(written, at, bytes.len())[j] == bytes[j] by {
        let i = (at + j) % n;
        vstd::arithmetic::div_mod::lemma_mod_bound(at + j, n);
        vstd::arithmetic::div_mod::lemma_sub_mod_noop(at + j, at, n);
        vstd::arithmetic::div_mod::lemma_small_mod(at as nat, n as nat);
        vstd::arithmetic::div_mod::lemma_small_mod(j as nat, n as nat);
    }
    assert(read_through_mirror(written, at, bytes.len()) =~= bytes);
}

} // verus!
