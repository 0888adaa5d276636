use magic_ring_buffer::errors::LargeRingQueueCreationError;
use magic_ring_buffer::large_ring_queue::{preferred_buffer_size, LargeRingQueue, LargeRingQueueInitialization};
use magic_ring_buffer::memory_sizes::{MemorySize, MemorySize4Kb};
use std::cell::Cell;
use std::mem::size_of;
use std::rc::Rc;

/// A value that counts how often values like it are dropped.
#[derive(Debug)]
struct Counted {
    name: String,
    drops: Rc<Cell<usize>>,
}

impl Drop for Counted {
    fn drop(&mut self) {
        self.drops.set(self.drops.get() + 1);
    }
}

fn empty_queue<T>(capacity: u64) -> LargeRingQueue<T> {
    let bytes = capacity * size_of::<T>() as u64;
    LargeRingQueue::new(capacity, Some(bytes), false, LargeRingQueueInitialization::Empty, |_: u64| -> T {
        unreachable!()
    })
    .unwrap()
}

#[test]
fn destruction_drops_only_what_is_on_the_queue() {
    let drops = Rc::new(Cell::new(0));
    let mut queue: LargeRingQueue<Counted> = empty_queue(4);
    for name in ["a", "b", "c"] {
        assert!(queue.enqueue_checked(Counted { name: name.to_string(), drops: drops.clone() }));
    }
    let first = queue.dequeue().unwrap();
    assert_eq!(first.name, "a");
    drop(first);
    assert_eq!(drops.get(), 1);
    drop(queue);
    assert_eq!(drops.get(), 3);
}

#[test]
fn strings_come_out_in_order() {
    let mut queue: LargeRingQueue<String> = empty_queue(4);
    assert!(queue.is_empty());
    for name in ["a", "b", "c"] {
        assert!(queue.enqueue_checked(name.to_string()));
    }
    assert_eq!(queue.available(), 3);
    assert_eq!(queue.dequeue(), Some("a".to_string()));
    assert_eq!(queue.available(), 2);
    assert_eq!(queue.dequeue(), Some("b".to_string()));
    assert_eq!(queue.dequeue(), Some("c".to_string()));
    assert_eq!(queue.dequeue(), None);
    assert!(queue.is_empty());
}

#[test]
fn slots_handed_out_come_back() {
    let bytes = 2 * size_of::<MemorySize4Kb>() as u64;
    let mut queue = LargeRingQueue::new(
        2,
        Some(bytes),
        false,
        LargeRingQueueInitialization::CreateFullOfUninitializedElements,
        |_: u64| MemorySize4Kb::zeroed(),
    )
    .unwrap();
    assert!(queue.is_full());
    let first = queue.obtain_and_map(|block| block, || "empty").unwrap();
    let _second = queue.obtain_and_map(|block| block, || "empty").unwrap();
    assert_eq!(queue.obtain_and_map(|block| block, || "empty").err(), Some("empty"));
    queue.relinquish(first);
    assert!(queue.obtain_and_map(|block| block, || "empty").is_ok());
}

#[test]
fn full_queue_refuses_more() {
    let mut queue: LargeRingQueue<u32> = empty_queue(2);
    assert!(queue.enqueue_checked(1));
    assert!(queue.enqueue_checked(2));
    assert!(queue.is_full());
    assert!(!queue.enqueue_checked(3));
    assert_eq!(queue.available(), 2);
    assert_eq!(queue.dequeue(), Some(1));
    assert!(queue.enqueue_checked(4));
    assert_eq!(queue.dequeue(), Some(2));
    assert_eq!(queue.dequeue(), Some(4));
    assert_eq!(queue.dequeue(), None);
}

#[test]
fn offsets_wrap_around_the_ring_many_times() {
    let mut queue: LargeRingQueue<u64> = empty_queue(4);
    for i in 0..100u64 {
        queue.enqueue_unchecked(i);
        queue.enqueue_unchecked(i + 1000);
        assert_eq!(queue.dequeue(), Some(i));
        assert_eq!(queue.dequeue(), Some(i + 1000));
    }
    assert!(queue.is_empty());
}

#[test]
fn initializer_fills_each_slot_from_its_index() {
    let bytes = 4 * size_of::<u64>() as u64;
    let mut queue =
        LargeRingQueue::new(4, Some(bytes), false, LargeRingQueueInitialization::CreateFullUsingInitializer, |i: u64| i * 10)
            .unwrap();
    assert!(queue.is_full());
    assert_eq!(queue.dequeue(), Some(0));
    assert_eq!(queue.dequeue(), Some(10));
    assert_eq!(queue.dequeue(), Some(20));
    assert_eq!(queue.dequeue(), Some(30));
    assert_eq!(queue.dequeue(), None);
}

#[test]
fn zeroed_queue_starts_full() {
    let bytes = 4 * size_of::<u8>() as u64;
    let mut queue =
        LargeRingQueue::new(4, Some(bytes), false, LargeRingQueueInitialization::CreateFullOfZeroedElements, |_: u64| 0u8)
            .unwrap();
    assert_eq!(queue.available(), 4);
    assert_eq!(queue.dequeue(), Some(0));
}

#[test]
fn capacity_is_rounded_up_to_a_power_of_two() {
    let bytes = 8 * size_of::<u64>() as u64;
    let queue: LargeRingQueue<u64> =
        LargeRingQueue::new(5, Some(bytes), false, LargeRingQueueInitialization::Empty, |i: u64| i).unwrap();
    assert_eq!(queue.maximum_number_of_elements(), 8);
    assert_eq!(queue.size_in_bytes(), 64);
}

#[test]
fn clamping_keeps_the_ideal_capacity() {
    let bytes = 8 * size_of::<u64>() as u64;
    let mut queue: LargeRingQueue<u64> =
        LargeRingQueue::new(5, Some(bytes), true, LargeRingQueueInitialization::Empty, |i: u64| i).unwrap();
    assert_eq!(queue.maximum_number_of_elements(), 5);
    for i in 0..5 {
        assert!(queue.enqueue_checked(i));
    }
    assert!(!queue.enqueue_checked(5));
    assert_eq!(queue.dequeue(), Some(0));
}

#[test]
fn preferred_sizes() {
    assert_eq!(preferred_buffer_size(3, 24), Ok((4, 96)));
    assert_eq!(preferred_buffer_size(4, 4096), Ok((4, 16384)));
    assert_eq!(
        preferred_buffer_size((1 << 63) + 1, 1),
        Err(LargeRingQueueCreationError::MaximumNumberOfElementsRoundedUpToAPowerOfTwoWouldBeLargerThanTheLargestPowerOfTwoInAnU64)
    );
    assert_eq!(
        preferred_buffer_size(1 << 62, 4),
        Err(LargeRingQueueCreationError::MaximumNumberOfElementsRoundedUpToAPowerOfTwoAndScaledByTheSizeOfEachElementWouldBeLargerThanTheLargestPowerOfTwoInAnU64)
    );
    assert_eq!(
        preferred_buffer_size(1 << 62, 1 << 40),
        Err(LargeRingQueueCreationError::MaximumNumberOfElementsRoundedUpToAPowerOfTwoAndScaledByTheSizeOfEachElementWouldBeLargerThanTheLargestPowerOfTwoInAnU64)
    );
}

#[test]
fn unsuitable_platform_sizes_are_refused() {
    let refused = Err(LargeRingQueueCreationError::BufferSizeWouldBeLargerThanTheLargestPowerOfTwoInAnU64);
    let new = |suitable: Option<u64>| {
        LargeRingQueue::<u64>::new(4, suitable, false, LargeRingQueueInitialization::Empty, |i: u64| i).map(|_| ())
    };
    assert_eq!(new(None), refused);
    assert_eq!(new(Some(16)), refused);
    assert_eq!(new(Some(36)), refused);
    assert_eq!(new(Some(48)), refused);
    assert_eq!(new(Some(32)), Ok(()));
    assert_eq!(new(Some(4096)), Ok(()));
}

#[test]
fn too_many_elements_is_an_error() {
    let outcome = LargeRingQueue::<u64>::new((1 << 63) + 1, Some(4096), false, LargeRingQueueInitialization::Empty, |i: u64| i);
    assert_eq!(
        outcome.map(|_| ()),
        Err(LargeRingQueueCreationError::MaximumNumberOfElementsRoundedUpToAPowerOfTwoWouldBeLargerThanTheLargestPowerOfTwoInAnU64)
    );
}

#[test]
fn initialization_heads() {
    assert_eq!(LargeRingQueueInitialization::Empty.apply(8).0, 0);
    assert_eq!(LargeRingQueueInitialization::CreateFullOfZeroedElements.apply(8).0, 8);
    assert_eq!(LargeRingQueueInitialization::full(3).0, 3);
    assert_eq!(LargeRingQueueInitialization::empty().0, 0);
}
