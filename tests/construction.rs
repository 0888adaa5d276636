use magic_ring_buffer::construction::{
    round_up_to_huge_page_size, MirrorConstructionStep, MirroredMemoryMapConstruction, ADDRESS_SPACE_EXHAUSTED,
};
use magic_ring_buffer::errors::MirroredMemoryMapCreationError;
use magic_ring_buffer::mirror::{MemoryRegion, VirtualAddress};
use magic_ring_buffer::offset::{is_a_power_of_two, OnlyEverIncreasesMonotonicallyOffset};

const MISPLACED: i32 = 17;

fn reserved(buffer_size: u64, base: u64) -> MirroredMemoryMapConstruction {
    MirroredMemoryMapConstruction::new(buffer_size)
        .memory_file_opened(Ok(()))
        .unwrap()
        .memory_file_length_set(Ok(()))
        .unwrap()
        .address_space_reserved(Ok(VirtualAddress(base)))
        .unwrap()
}

#[test]
fn sizes_for_a_mirror() {
    assert_eq!(round_up_to_huge_page_size(3000, Some(4096)), Ok((4096, 8192)));
    assert_eq!(round_up_to_huge_page_size(4096, Some(4096)), Ok((4096, 8192)));
}

#[test]
fn no_suitable_size_is_an_error() {
    assert_eq!(
        round_up_to_huge_page_size(3000, None),
        Err(MirroredMemoryMapCreationError::BufferSizeWouldBeLargerThanTheLargestPowerOfTwoInAnU64(3000))
    );
    assert_eq!(
        round_up_to_huge_page_size(3000, Some(2048)),
        Err(MirroredMemoryMapCreationError::BufferSizeWouldBeLargerThanTheLargestPowerOfTwoInAnU64(3000))
    );
    assert_eq!(
        round_up_to_huge_page_size(3000, Some(12288)),
        Err(MirroredMemoryMapCreationError::BufferSizeWouldBeLargerThanTheLargestPowerOfTwoInAnU64(3000))
    );
}

#[test]
fn a_mirror_of_the_largest_power_of_two_does_not_fit() {
    assert_eq!(
        round_up_to_huge_page_size(1 << 62, Some(1 << 63)),
        Err(MirroredMemoryMapCreationError::BufferSizeRequiredMirrorSizeLargerThanTheLargestPowerOfTwoInAnU64(1 << 62))
    );
    assert_eq!(round_up_to_huge_page_size(1 << 62, Some(1 << 62)), Ok((1 << 62, 1 << 63)));
}

#[test]
fn power_of_two_test() {
    assert!(is_a_power_of_two(1));
    assert!(is_a_power_of_two(4096));
    assert!(is_a_power_of_two(1 << 63));
    assert!(!is_a_power_of_two(0));
    assert!(!is_a_power_of_two(12288));
    assert!(!is_a_power_of_two(u64::MAX));
}

#[test]
fn construction_steps_in_order() {
    let base = 0x7f00_0000_0000;
    let c = MirroredMemoryMapConstruction::new(4096);
    assert_eq!(c.step, MirrorConstructionStep::OpenMemoryFile);
    assert_eq!(c.mirror_length(), 8192);
    let c = c.memory_file_opened(Ok(())).unwrap();
    assert_eq!(c.step, MirrorConstructionStep::SetMemoryFileLength);
    let c = c.memory_file_length_set(Ok(())).unwrap();
    assert_eq!(c.step, MirrorConstructionStep::ReserveAddressSpace);
    let c = c.address_space_reserved(Ok(VirtualAddress(base))).unwrap();
    assert_eq!(c.step, MirrorConstructionStep::MapFirstHalf);
    assert_eq!(c.overlay_address(), VirtualAddress(base));
    let c = c.half_mapped(Ok(VirtualAddress(base)), MISPLACED).unwrap();
    assert_eq!(c.step, MirrorConstructionStep::MapSecondHalf);
    assert_eq!(c.overlay_address(), VirtualAddress(base + 4096));
    let c = c.half_mapped(Ok(VirtualAddress(base + 4096)), MISPLACED).unwrap();
    assert_eq!(c.step, MirrorConstructionStep::LockMemory);
    assert_eq!(c.reservation(), MemoryRegion { address: VirtualAddress(base), length: 8192 });
    let c = c.lock_memory(Ok(true)).unwrap();
    assert_eq!(c.step, MirrorConstructionStep::AdviseDontFork);
    let map = c.advised(Ok(())).unwrap();
    assert_eq!(map.virtual_address(), VirtualAddress(base));
    assert_eq!(map.buffer_size().u64(), 4096);
    assert_eq!(map.pointer(OnlyEverIncreasesMonotonicallyOffset(4097)), VirtualAddress(base + 1));
}

#[test]
fn each_failing_step_has_its_error() {
    let c = MirroredMemoryMapConstruction::new(4096);
    assert_eq!(c.memory_file_opened(Err(24)), Err(MirroredMemoryMapCreationError::CouldNotOpenMemFd(24)));
    let c = c.memory_file_opened(Ok(())).unwrap();
    assert_eq!(c.memory_file_length_set(Err(27)), Err(MirroredMemoryMapCreationError::CouldNotSetLength(27)));
    let c = c.memory_file_length_set(Ok(())).unwrap();
    assert_eq!(
        c.address_space_reserved(Err(12)),
        Err(MirroredMemoryMapCreationError::CouldNotCreateFirstMemoryMapping(12))
    );
    let c = reserved(4096, 0x1000_0000);
    assert_eq!(
        c.half_mapped(Err(22), MISPLACED),
        Err(MirroredMemoryMapCreationError::CouldNotCreateSecondMemoryMapping(22))
    );
    let c = c.half_mapped(Ok(VirtualAddress(0x1000_0000)), MISPLACED).unwrap();
    let c = c.half_mapped(Ok(VirtualAddress(0x1000_1000)), MISPLACED).unwrap();
    assert_eq!(c.lock_memory(Err(1)), Err(MirroredMemoryMapCreationError::CouldNotLockMemory(1)));
    assert_eq!(c.lock_memory(Ok(false)), Err(MirroredMemoryMapCreationError::CouldNotLockAllMemory));
    let c = c.lock_memory(Ok(true)).unwrap();
    assert_eq!(c.advised(Err(22)), Err(MirroredMemoryMapCreationError::CouldNotAdviseMemory(22)));
}

#[test]
fn an_overlay_that_lands_elsewhere_is_a_failure() {
    let c = reserved(4096, 0x1000_0000);
    assert_eq!(
        c.half_mapped(Ok(VirtualAddress(0x2000_0000)), MISPLACED),
        Err(MirroredMemoryMapCreationError::CouldNotCreateSecondMemoryMapping(MISPLACED))
    );
    let c = c.half_mapped(Ok(VirtualAddress(0x1000_0000)), MISPLACED).unwrap();
    assert_eq!(
        c.half_mapped(Ok(VirtualAddress(0x1000_0000)), MISPLACED),
        Err(MirroredMemoryMapCreationError::CouldNotCreateSecondMemoryMapping(MISPLACED))
    );
}

#[test]
fn a_reservation_too_close_to_the_top_is_a_failure() {
    let c = MirroredMemoryMapConstruction::new(4096)
        .memory_file_opened(Ok(()))
        .unwrap()
        .memory_file_length_set(Ok(()))
        .unwrap();
    assert_eq!(
        c.address_space_reserved(Ok(VirtualAddress(u64::MAX - 4096))),
        Err(MirroredMemoryMapCreationError::CouldNotCreateFirstMemoryMapping(ADDRESS_SPACE_EXHAUSTED))
    );
}
