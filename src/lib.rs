//! A magic ring buffer (a byte ring whose storage is mapped twice, back to
//! back, so that every read and write is contiguous) for many producers and
//! one consumer, and a large ring queue of fixed-size elements.
//!
//! The library decides; the caller does the platform work. Building a mirror
//! is a sequence of steps whose outcomes the caller reports
//! ([`construction`]); a producer's waits spin on the caller's side between
//! the steps of [`magic_ring_buffer`]; and byte runs are handed out as
//! [`mirror::MemoryRegion`]s for the caller to read or fill.

pub mod atomic_offset;
pub mod construction;
pub mod errors;
pub mod large_ring_queue;
pub mod magic_ring_buffer;
pub mod memory_sizes;
pub mod mirror;
pub mod offset;
pub mod protocol;
pub mod sizing;
