//! Fixed-size blocks of memory to use as queue elements.

use vstd::prelude::*;

verus! {

/// A fixed-size block of memory. A queue of blocks starts full of blank
/// blocks whose bytes are filled on each use, and dropping a block needs no
/// work.
pub trait MemorySize: Sized {
    /// A block whose bytes are all zero.
    fn zeroed() -> Self;
}

/// A block of 4 KiB.
#[derive(Debug)]
pub struct MemorySize4Kb(pub [u8; 4096]);

impl MemorySize for MemorySize4Kb {
    fn zeroed() -> Self {
        MemorySize4Kb([0u8; 4096])
    }
}

} // verus!
