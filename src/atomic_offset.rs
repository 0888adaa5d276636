//! An atomically updated monotonic offset, shared between threads.

use vstd::prelude::*;
use std::sync::atomic::AtomicU64;
use std::sync::atomic::Ordering;
use crate::offset::{OnlyEverIncreasesMonotonicallyOffset, Size};

verus! {

/// A monotonic offset that threads read with acquire ordering, store with
/// release ordering, and advance by compare-and-exchange or fetch-and-add.
/// Callers only ever move it forward.
///
/// What another thread has stored is unknown here, so the values these
/// methods return are whatever the atomic held when they ran.
#[derive(Debug)]
pub struct CompareExchangeOnlyEverIncreasesMonotonicallyOffset(AtomicU64);

impl CompareExchangeOnlyEverIncreasesMonotonicallyOffset {
    /// An offset at zero.
    pub fn zero() -> (r: Self) {
        CompareExchangeOnlyEverIncreasesMonotonicallyOffset(AtomicU64::new(0))
    }

    /// Loads the offset (acquire).
    pub fn get(&self) -> (r: OnlyEverIncreasesMonotonicallyOffset) {
        OnlyEverIncreasesMonotonicallyOffset(self.0.load(Ordering::Acquire))
    }

    /// Stores `offset` (release).
    pub fn set(&self, offset: OnlyEverIncreasesMonotonicallyOffset) {
        self.0.store(offset.0, Ordering::Release)
    }

    /// Moves the offset from `current_value` to `new_value` if it still holds
    /// `current_value` (acquire-release on success, acquire on failure);
    /// otherwise hands back what it held.
    pub fn try_to_update(&self, current_value: OnlyEverIncreasesMonotonicallyOffset, new_value: OnlyEverIncreasesMonotonicallyOffset) -> (r: Result<(), OnlyEverIncreasesMonotonicallyOffset>)
        requires
            current_value.0 <= new_value.0,
    {
        match self.0.compare_exchange(current_value.0, new_value.0, Ordering::AcqRel, Ordering::Acquire) {
            Ok(_current) => Ok(()),
            Err(was) => Err(OnlyEverIncreasesMonotonicallyOffset(was)),
        }
    }

    /// Advances the offset by `increment` (acquire) and returns the range
    /// `[previous, previous + increment)` this reserved. The sum wraps at
    /// `2^64`, as the atomic itself does; that many bytes are never written.
    pub fn fetch_add(&self, increment: Size) -> (r: (OnlyEverIncreasesMonotonicallyOffset, OnlyEverIncreasesMonotonicallyOffset))
        ensures
            r.1.0 == r.0.0.wrapping_add(increment.0),
    {
        let previous = self.0.fetch_add(increment.0, Ordering::Acquire);
        (OnlyEverIncreasesMonotonicallyOffset(previous), OnlyEverIncreasesMonotonicallyOffset(previous.wrapping_add(increment.0)))
    }
}

} // verus!
