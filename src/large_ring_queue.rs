//! A large ring queue: a single-threaded ring of a fixed, power-of-two number
//! of element slots, indexed by monotonic head and tail offsets through a
//! ring mask.
//!
//! Each slot either holds an element on the queue or is empty: its element
//! has been handed out (by [`LargeRingQueue::dequeue`] or
//! [`LargeRingQueue::obtain_and_map`]) and is owned by whoever holds it until
//! it comes back by [`LargeRingQueue::relinquish`]. So dropping the queue
//! drops exactly the elements still on it.

use vstd::prelude::*;
use crate::errors::LargeRingQueueCreationError;
use crate::offset::{
    checked_next_power_of_two, is_a_power_of_two, is_next_power_of_two, is_power_of_two, lemma_mask_is_mod, next_power_of_two, OnlyEverIncreasesMonotonicallyOffset,
    LARGEST_POWER_OF_TWO,
};

verus! {

/// How a queue's slots start out.
#[derive(Clone, Copy, Debug, PartialEq, Eq, Structural)]
pub enum LargeRingQueueInitialization {
    /// Empty: `head = tail = 0`.
    Empty,
    /// Full of blank elements that are filled on each use.
    CreateFullOfUninitializedElements,
    /// Full of elements made of zero bytes.
    CreateFullOfZeroedElements,
    /// Full of elements made by an initializer from their index.
    CreateFullUsingInitializer,
}

impl LargeRingQueueInitialization {
    /// Whether the queue starts full.
    pub open spec fn starts_full(self) -> bool {
        self != LargeRingQueueInitialization::Empty
    }

    /// The head offset a queue of `maximum_number_of_elements` starts at.
    pub fn apply(self, maximum_number_of_elements: u64) -> (r: OnlyEverIncreasesMonotonicallyOffset)
        ensures
            r.0 == if self.starts_full() { maximum_number_of_elements } else { 0 },
    {
        match self {
            LargeRingQueueInitialization::Empty => Self::empty(),
            _ => Self::full(maximum_number_of_elements),
        }
    }

    /// The head offset of a queue that starts full.
    pub fn full(maximum_number_of_elements: u64) -> (r: OnlyEverIncreasesMonotonicallyOffset)
        ensures
            r.0 == maximum_number_of_elements,
    {
        Self::empty().add_u64(maximum_number_of_elements)
    }

    /// The head offset of a queue that starts empty.
    pub fn empty() -> (r: OnlyEverIncreasesMonotonicallyOffset)
        ensures
            r.0 == 0,
    {
        OnlyEverIncreasesMonotonicallyOffset::zero()
    }
}

/// Offsets within one ring length of each other land in different slots.
pub proof fn lemma_window_slots_distinct(a: int, b: int, base: int, len: int)
    requires
        len > 0,
        base <= a < base + len,
        base <= b < base + len,
        a % len == b % len,
    ensures
        a == b,
{
    vstd::arithmetic::div_mod::lemma_fundamental_div_mod(a, len);
    vstd::arithmetic::div_mod::lemma_fundamental_div_mod(b, len);
    let qa = a / len;
    let qb = b / len;
    if qa < qb {
        assert(len * qa + len <= len * qb) by (nonlinear_arith)
            requires qa < qb, len > 0;
    } else if qb < qa {
        assert(len * qb + len <= len * qa) by (nonlinear_arith)
            requires qb < qa, len > 0;
    }
}

/// The byte size a queue asks the platform for: the ideal element count
/// rounded up to a power of two `p`, times the element size. Fails when `p`
/// or the product exceeds `2^63`.
pub fn preferred_buffer_size(ideal_maximum_number_of_elements: u64, element_size: u64) -> (r: Result<(u64, u64), LargeRingQueueCreationError>)
    ensures
        r == preferred_buffer_size_spec(ideal_maximum_number_of_elements, element_size),
        r matches Ok((p, b)) ==> is_next_power_of_two(ideal_maximum_number_of_elements, p) && b == p * element_size,
{
    match checked_next_power_of_two(ideal_maximum_number_of_elements) {
        None => Err(LargeRingQueueCreationError::MaximumNumberOfElementsRoundedUpToAPowerOfTwoWouldBeLargerThanTheLargestPowerOfTwoInAnU64),
        Some(p) => {
            match p.checked_mul(element_size) {
                Some(bytes) => {
                    if bytes > LARGEST_POWER_OF_TWO {
                        Err(LargeRingQueueCreationError::MaximumNumberOfElementsRoundedUpToAPowerOfTwoAndScaledByTheSizeOfEachElementWouldBeLargerThanTheLargestPowerOfTwoInAnU64)
                    } else {
                        Ok((p, bytes))
                    }
                },
                None => Err(LargeRingQueueCreationError::MaximumNumberOfElementsRoundedUpToAPowerOfTwoAndScaledByTheSizeOfEachElementWouldBeLargerThanTheLargestPowerOfTwoInAnU64),
            }
        },
    }
}

/// What [`preferred_buffer_size`] returns.
pub open spec fn preferred_buffer_size_spec(ideal: u64, element_size: u64) -> Result<(u64, u64), LargeRingQueueCreationError> {
    if ideal > LARGEST_POWER_OF_TWO {
        Err(LargeRingQueueCreationError::MaximumNumberOfElementsRoundedUpToAPowerOfTwoWouldBeLargerThanTheLargestPowerOfTwoInAnU64)
    } else {
        let p = next_power_of_two(ideal);
        if p * element_size > LARGEST_POWER_OF_TWO {
            Err(LargeRingQueueCreationError::MaximumNumberOfElementsRoundedUpToAPowerOfTwoAndScaledByTheSizeOfEachElementWouldBeLargerThanTheLargestPowerOfTwoInAnU64)
        } else {
            Ok((p, (p * element_size) as u64))
        }
    }
}

/// The platform's buffer size `b` suits a queue of elements of
/// `element_size` bytes whose preferred size is `preferred`: it is at least
/// that, a whole number of elements, and that number is a power of two.
pub open spec fn suits(b: u64, preferred: u64, element_size: u64) -> bool {
    &&& preferred <= b
    &&& b % element_size == 0
    &&& is_power_of_two(b / element_size)
    &&& b / element_size <= usize::MAX
}

/// The capacity of a queue over a buffer of `b` bytes.
pub open spec fn queue_capacity(ideal: u64, b: u64, element_size: u64, clamp: bool) -> u64 {
    if clamp { ideal } else { (b / element_size) as u64 }
}

/// A fixed-capacity ring of elements. Not thread safe.
#[derive(Debug)]
pub struct LargeRingQueue<Element> {
    slots: Vec<Option<Element>>,
    ring_mask: u64,
    tail: OnlyEverIncreasesMonotonicallyOffset,
    head: OnlyEverIncreasesMonotonicallyOffset,
    maximum_number_of_elements: u64,
    size_in_bytes: u64,
}

impl<Element> LargeRingQueue<Element> {
    /// The number of slots, a power of two.
    pub closed spec fn ring_length(&self) -> int {
        self.slots@.len() as int
    }

    /// The capacity: the most elements the queue holds at once.
    pub closed spec fn capacity(&self) -> int {
        self.maximum_number_of_elements as int
    }

    /// The size in bytes of the buffer the platform chose for the slots.
    pub closed spec fn bytes(&self) -> int {
        self.size_in_bytes as int
    }

    /// The tail offset: the next element to be consumed.
    pub closed spec fn tail_offset(&self) -> int {
        self.tail.0 as int
    }

    /// The head offset: the next slot to be produced.
    pub closed spec fn head_offset(&self) -> int {
        self.head.0 as int
    }

    /// The slot that `offset` is masked to.
    pub closed spec fn slot(&self, offset: int) -> Option<Element> {
        self.slots@[offset % self.ring_length()]
    }

    /// The elements on the queue, from tail to head.
    pub closed spec fn view(&self) -> Seq<Element> {
        Seq::new((self.head.0 - self.tail.0) as nat, |i: int| self.slot(self.tail.0 + i)->Some_0)
    }

    /// The slots form a power-of-two ring whose mask is its length less
    /// one; `tail ≤ head ≤ tail + capacity ≤ tail + ring length`; and over
    /// the ring length from `tail` on, a slot holds an element exactly when
    /// its offset is below `head`.
    pub closed spec fn wf(&self) -> bool {
        &&& is_power_of_two(self.slots@.len() as u64)
        &&& self.slots@.len() <= u64::MAX
        &&& self.slots@.len() <= usize::MAX
        &&& self.ring_mask == self.slots@.len() - 1
        &&& 0 < self.maximum_number_of_elements <= self.slots@.len()
        &&& self.tail.0 <= self.head.0 <= self.tail.0 + self.maximum_number_of_elements
        &&& forall|o: int| self.tail.0 <= o < self.tail.0 + self.ring_length()
            ==> (#[trigger] self.slot(o) is Some <==> o < self.head.0)
    }

    /// A queue for about `ideal_maximum_number_of_elements` elements.
    ///
    /// `suitable_buffer_size` is the platform's answer for the preferred
    /// size (see [`preferred_buffer_size`]): a byte count of whole pages no
    /// smaller than it within the waste budget, or `None` when there is none.
    /// The ring then has `b / size_of::<Element>()` slots, which must be a
    /// power of two; its capacity is that many, or the ideal count when
    /// clamping is asked for. A queue that starts full holds
    /// `initializer(0)`, `initializer(1)`, ... up to its capacity.
    pub fn new<F: Fn(u64) -> Element>(ideal_maximum_number_of_elements: u64, suitable_buffer_size: Option<u64>, clamp_to_ideal_maximum_number_of_elements: bool, initialization: LargeRingQueueInitialization, initializer: F) -> (r: Result<Self, LargeRingQueueCreationError>)
        requires
            ideal_maximum_number_of_elements > 0,
            vstd::layout::size_of::<Element>() > 0,
            forall|i: u64| call_requires(initializer, (i,)),
        ensures
            ({
                let size = vstd::layout::size_of::<Element>() as u64;
                match preferred_buffer_size_spec(ideal_maximum_number_of_elements, size) {
                    Err(e) => r == Err::<Self, LargeRingQueueCreationError>(e),
                    Ok((p, preferred)) => match suitable_buffer_size {
                        Some(b) if suits(b, preferred, size) => r matches Ok(q) && {
                            let capacity = queue_capacity(ideal_maximum_number_of_elements, b, size, clamp_to_ideal_maximum_number_of_elements);
                            &&& q.wf()
                            &&& q.ring_length() == b / size
                            &&& q.bytes() == b
                            &&& q.capacity() == capacity
                            &&& q.tail_offset() == 0
                            &&& q@.len() == if initialization.starts_full() { capacity as int } else { 0 }
                            &&& forall|k: int| 0 <= k < q@.len() ==> call_ensures(initializer, (k as u64,), #[trigger] q@[k])
                        },
                        _ => r == Err::<Self, LargeRingQueueCreationError>(LargeRingQueueCreationError::BufferSizeWouldBeLargerThanTheLargestPowerOfTwoInAnU64),
                    },
                }
            }),
    {
        let size = core::mem::size_of::<Element>() as u64;
        let (p, preferred) = match preferred_buffer_size(ideal_maximum_number_of_elements, size) {
            Ok(sizes) => sizes,
            Err(e) => return Err(e),
        };
        let b = match suitable_buffer_size {
            Some(b) => b,
            None => return Err(LargeRingQueueCreationError::BufferSizeWouldBeLargerThanTheLargestPowerOfTwoInAnU64),
        };
        if b < preferred || b % size != 0 {
            return Err(LargeRingQueueCreationError::BufferSizeWouldBeLargerThanTheLargestPowerOfTwoInAnU64);
        }
        let ring_length = b / size;
        if !is_a_power_of_two(ring_length) || ring_length > usize::MAX as u64 {
            return Err(LargeRingQueueCreationError::BufferSizeWouldBeLargerThanTheLargestPowerOfTwoInAnU64);
        }
        proof {
            assert(p * size <= b);
            assert(p <= ring_length) by (nonlinear_arith)
                requires p * size <= b, size > 0, ring_length == b / size;
            assert(ideal_maximum_number_of_elements <= ring_length);
        }
        let maximum_number_of_elements = if clamp_to_ideal_maximum_number_of_elements {
            ideal_maximum_number_of_elements
        } else {
            ring_length
        };
        let head = initialization.apply(maximum_number_of_elements);
        let mut slots: Vec<Option<Element>> = Vec::new();
        let mut i: u64 = 0;
        while i < ring_length
            invariant
                i <= ring_length,
                ring_length <= usize::MAX,
                maximum_number_of_elements <= ring_length,
                head.0 == 0 || head.0 == maximum_number_of_elements,
                slots@.len() == i,
                forall|i: u64| call_requires(initializer, (i,)),
                forall|j: int| 0 <= j < i ==> (#[trigger] slots@[j] is Some <==> j < head.0),
                forall|j: int| 0 <= j < i && j < head.0 ==> call_ensures(initializer, (j as u64,), #[trigger] slots@[j]->Some_0),
            decreases ring_length - i,
        {
            if i < head.0 {
                let element = initializer(i);
                slots.push(Some(element));
            } else {
                slots.push(None);
            }
            i = i + 1;
        }
        let queue = LargeRingQueue {
            slots,
            ring_mask: ring_length - 1,
            tail: OnlyEverIncreasesMonotonicallyOffset::zero(),
            head,
            maximum_number_of_elements,
            size_in_bytes: b,
        };
        proof {
            let len = queue.ring_length();
            assert forall|o: int| 0 <= o < len implies #[trigger] queue.slot(o) == queue.slots@[o] by {
                vstd::arithmetic::div_mod::lemma_small_mod(o as nat, len as nat);
            }
            assert forall|k: int| 0 <= k < queue@.len() implies call_ensures(initializer, (k as u64,), #[trigger] queue@[k]) by {
                assert(queue.slot(k) == queue.slots@[k]);
            }
        }
        Ok(queue)
    }

    /// The slot index of `offset`, `offset & ring_mask`.
    fn index_of(&self, offset: OnlyEverIncreasesMonotonicallyOffset) -> (r: usize)
        requires
            self.wf(),
        ensures
            r == (offset.0 as int) % self.ring_length(),
            r < self.ring_length(),
    {
        proof {
            lemma_mask_is_mod(offset.0, self.slots@.len() as u64);
        }
        offset.bitand(self.ring_mask) as usize
    }

    /// Is empty?
    pub fn is_empty(&self) -> (r: bool)
        requires
            self.wf(),
        ensures
            r == (self@.len() == 0),
    {
        self.head.0 == self.tail.0
    }

    /// Is full?
    pub fn is_full(&self) -> (r: bool)
        requires
            self.wf(),
        ensures
            r == (self@.len() == self.capacity()),
    {
        self.available() == self.maximum_number_of_elements
    }

    /// The number of elements on the queue, `head − tail`.
    pub fn available(&self) -> (r: u64)
        requires
            self.wf(),
        ensures
            r == self@.len(),
            r <= self.capacity(),
    {
        self.head.sub(self.tail).u64()
    }

    /// The capacity.
    pub fn maximum_number_of_elements(&self) -> (r: u64)
        ensures
            r == self.capacity(),
    {
        self.maximum_number_of_elements
    }

    /// The size in bytes of the memory the slots stand for.
    pub fn size_in_bytes(&self) -> (r: u64)
        ensures
            r == self.bytes(),
    {
        self.size_in_bytes
    }

    /// Enqueues `value` at the head, without checking for capacity.
    pub fn enqueue_unchecked(&mut self, value: Element)
        requires
            old(self).wf(),
            old(self)@.len() < old(self).capacity(),
            old(self).head_offset() < u64::MAX,
        ensures
            final(self).wf(),
            final(self)@ == old(self)@.push(value),
            final(self).capacity() == old(self).capacity(),
            final(self).head_offset() == old(self).head_offset() + 1,
            final(self).tail_offset() == old(self).tail_offset(),
    {
        let ghost before = *self;
        let index = self.index_of(self.head);
        self.slots.set(index, Some(value));
        self.head.add_assign(1);
        proof {
            let len = self.ring_length();
            assert forall|o: int| self.tail.0 <= o < self.tail.0 + len
                implies (#[trigger] self.slot(o) is Some <==> o < self.head.0) by {
                if o != before.head.0 {
                    if o % len == (before.head.0 as int) % len {
                        lemma_window_slots_distinct(o, before.head.0 as int, self.tail.0 as int, len);
                    }
                    assert(before.slot(o) == self.slot(o));
                }
            }
            assert(self@ =~= before@.push(value)) by {
                assert forall|i: int| 0 <= i < before@.len() implies #[trigger] self@[i] == before@[i] by {
                    let o = self.tail.0 + i;
                    if o % len == (before.head.0 as int) % len {
                        lemma_window_slots_distinct(o, before.head.0 as int, self.tail.0 as int, len);
                    }
                }
            }
        }
    }

    /// Enqueues `value` at the head; `false` (and `value` is dropped) when
    /// the queue is full.
    pub fn enqueue_checked(&mut self, value: Element) -> (r: bool)
        requires
            old(self).wf(),
            old(self).head_offset() < u64::MAX,
        ensures
            final(self).wf(),
            r == (old(self)@.len() < old(self).capacity()),
            r ==> final(self)@ == old(self)@.push(value),
            !r ==> final(self)@ == old(self)@,
            final(self).capacity() == old(self).capacity(),
            final(self).tail_offset() == old(self).tail_offset(),
            final(self).head_offset() == old(self).head_offset() + if r { 1int } else { 0int },
    {
        if self.is_full() {
            false
        } else {
            self.enqueue_unchecked(value);
            true
        }
    }

    /// Takes the element at the tail out of its slot.
    fn take_tail(&mut self) -> (r: Element)
        requires
            old(self).wf(),
            old(self)@.len() > 0,
        ensures
            final(self).wf(),
            r == old(self)@[0],
            final(self)@ == old(self)@.drop_first(),
            final(self).capacity() == old(self).capacity(),
            final(self).head_offset() == old(self).head_offset(),
            final(self).tail_offset() == old(self).tail_offset() + 1,
    {
        let ghost before = *self;
        let index = self.index_of(self.tail);
        let mut taken: Option<Element> = None;
        std::mem::swap(&mut taken, &mut self.slots[index]);
        self.tail.add_assign(1);
        proof {
            let len = self.ring_length();
            assert(before.slot(before.tail.0 as int) is Some);
            assert forall|o: int| self.tail.0 <= o < self.tail.0 + len
                implies (#[trigger] self.slot(o) is Some <==> o < self.head.0) by {
                if o == before.tail.0 + len {
                    vstd::arithmetic::div_mod::lemma_mod_add_multiples_vanish(before.tail.0 as int, len);
                } else {
                    if o % len == (before.tail.0 as int) % len {
                        lemma_window_slots_distinct(o, before.tail.0 as int, before.tail.0 as int, len);
                    }
                    assert(before.slot(o) == self.slot(o));
                }
            }
            assert(self@ =~= before@.drop_first()) by {
                assert forall|i: int| 0 <= i < self@.len() implies #[trigger] self@[i] == before@[i + 1] by {
                    let o = self.tail.0 + i;
                    if o % len == (before.tail.0 as int) % len {
                        lemma_window_slots_distinct(o, before.tail.0 as int, before.tail.0 as int, len);
                    }
                }
            }
        }
        taken.unwrap()
    }

    /// Dequeues the element at the tail; `None` when the queue is empty.
    pub fn dequeue(&mut self) -> (r: Option<Element>)
        requires
            old(self).wf(),
        ensures
            final(self).wf(),
            old(self)@.len() == 0 ==> r is None && final(self)@ == old(self)@,
            old(self)@.len() > 0 ==> r == Some(old(self)@[0]) && final(self)@ == old(self)@.drop_first(),
            final(self).capacity() == old(self).capacity(),
            final(self).head_offset() == old(self).head_offset(),
    {
        if self.is_empty() {
            None
        } else {
            Some(self.take_tail())
        }
    }

    /// Returns an element previously handed out to the head of the queue,
    /// without copying its contents.
    pub fn relinquish(&mut self, element: Element)
        requires
            old(self).wf(),
            old(self)@.len() < old(self).capacity(),
            old(self).head_offset() < u64::MAX,
        ensures
            final(self).wf(),
            final(self)@ == old(self)@.push(element),
            final(self).capacity() == old(self).capacity(),
            final(self).head_offset() == old(self).head_offset() + 1,
            final(self).tail_offset() == old(self).tail_offset(),
    {
        self.enqueue_unchecked(element)
    }

    /// Hands out the element at the tail, mapped by `mapper`; or, when the
    /// queue is empty, the error made by `empty_handler`.
    pub fn obtain_and_map<Mapped, Error, Mapper: FnOnce(Element) -> Mapped, EmptyHandler: FnOnce() -> Error>(&mut self, mapper: Mapper, empty_handler: EmptyHandler) -> (r: Result<Mapped, Error>)
        requires
            old(self).wf(),
            forall|e: Element| call_requires(mapper, (e,)),
            call_requires(empty_handler, ()),
        ensures
            final(self).wf(),
            final(self).capacity() == old(self).capacity(),
            final(self).head_offset() == old(self).head_offset(),
            old(self)@.len() == 0 ==> final(self)@ == old(self)@
                && (r matches Err(e) && call_ensures(empty_handler, (), e)),
            old(self)@.len() > 0 ==> final(self)@ == old(self)@.drop_first()
                && (r matches Ok(m) && call_ensures(mapper, (old(self)@[0],), m)),
    {
        if self.is_empty() {
            return Err(empty_handler());
        }
        let element = self.take_tail();
        Ok(mapper(element))
    }

    /// In every well-formed queue, `tail ≤ head ≤ tail + capacity`.
    pub proof fn lemma_offsets_bounded(&self)
        requires
            self.wf(),
        ensures
            self.tail_offset() <= self.head_offset() <= self.tail_offset() + self.capacity(),
            self@.len() == self.head_offset() - self.tail_offset(),
    {
    }

    /// The number of slots of every well-formed queue (its capacity before
    /// clamping) is a power of two, and at least its capacity.
    pub proof fn lemma_ring_length_is_power_of_two(&self)
        requires
            self.wf(),
        ensures
            is_power_of_two(self.ring_length() as u64),
            self.capacity() <= self.ring_length(),
    {
    }
}

} // verus!
