use magic_ring_buffer::sizing::{fit_on_page_size, size_suitable_for_a_power_of_two_ring_queue};
use magic_ring_buffer::mirror::{MemoryRegion, MirroredMemoryMap, VirtualAddress};
use magic_ring_buffer::offset::{checked_next_power_of_two, OnlyEverIncreasesMonotonicallyOffset, Size};

#[test]
fn ring_mask_projects_offsets() {
    let mask = Size(4096).to_ring_mask();
    assert_eq!(mask, 4095);
    assert_eq!(OnlyEverIncreasesMonotonicallyOffset(5000).bitand(mask), 904);
    assert_eq!(OnlyEverIncreasesMonotonicallyOffset(4096).bitand(mask), 0);
}

#[test]
fn offset_arithmetic() {
    let a = OnlyEverIncreasesMonotonicallyOffset(3000);
    assert_eq!(a.add(Size(2000)), OnlyEverIncreasesMonotonicallyOffset(5000));
    assert_eq!(a.add_u64(1), OnlyEverIncreasesMonotonicallyOffset(3001));
    assert_eq!(OnlyEverIncreasesMonotonicallyOffset(5000).sub(a), Size(2000));
    assert_eq!(a.sub_u64(1000), OnlyEverIncreasesMonotonicallyOffset(2000));
    let mut b = a;
    b.add_assign(7);
    assert_eq!(b.0, 3007);
    assert_eq!(a.into(), 3000usize);
    assert_eq!(Size::from(12usize).mul(3), Size(36));
    assert_eq!(Size(36).sub(Size(6)).u64(), 30);
    assert_eq!(Size(36).into(), 36usize);
}

#[test]
fn next_power_of_two() {
    assert_eq!(checked_next_power_of_two(0), Some(1));
    assert_eq!(checked_next_power_of_two(1), Some(1));
    assert_eq!(checked_next_power_of_two(3), Some(4));
    assert_eq!(checked_next_power_of_two(4096), Some(4096));
    assert_eq!(checked_next_power_of_two(4097), Some(8192));
    assert_eq!(checked_next_power_of_two(1 << 63), Some(1 << 63));
    assert_eq!(checked_next_power_of_two((1 << 63) + 1), None);
}

#[test]
fn an_offset_and_one_buffer_later_share_an_address() {
    let map = MirroredMemoryMap::from_mapping(VirtualAddress(0x10000), 4096);
    for offset in [0u64, 1, 100, 4095, 4096, 123_456] {
        assert_eq!(
            map.pointer(OnlyEverIncreasesMonotonicallyOffset(offset)),
            map.pointer(OnlyEverIncreasesMonotonicallyOffset(offset + 4096))
        );
    }
    assert_eq!(map.pointer(OnlyEverIncreasesMonotonicallyOffset(4097)), VirtualAddress(0x10001));
}

#[test]
fn a_region_past_the_end_is_one_run_in_the_mirror() {
    let map = MirroredMemoryMap::from_mapping(VirtualAddress(0x10000), 4096);
    let region = map.region(OnlyEverIncreasesMonotonicallyOffset(4096 * 3 + 4000), Size(4096));
    assert_eq!(region, MemoryRegion { address: VirtualAddress(0x10000 + 4000), length: 4096 });
    assert_eq!(map.buffer_size(), Size(4096));
    assert_eq!(map.virtual_address(), VirtualAddress(0x10000));
}

#[test]
fn virtual_address_arithmetic() {
    assert!(VirtualAddress(1).is_not_null());
    assert!(!VirtualAddress(0).is_not_null());
    assert_eq!(VirtualAddress(0x1000).add(Size(0x10)), VirtualAddress(0x1010));
}

#[test]
fn buffer_sizes_on_pages() {
    assert_eq!(fit_on_page_size(3000, 4096, 4096), Some(4096));
    assert_eq!(fit_on_page_size(3000, 4096, 1000), None);
    assert_eq!(fit_on_page_size(5000, 4096, 4096), Some(8192));
    assert_eq!(fit_on_page_size(100, 4096, 0), None);
    assert_eq!(fit_on_page_size(4096, 4096, 0), Some(4096));
    assert_eq!(fit_on_page_size(3000, 3000, 4096), None);
    assert_eq!(fit_on_page_size((1 << 63) + 1, 4096, u64::MAX), None);
    // The first page size in order of preference that fits wins.
    let pages = vec![2 * 1024 * 1024, 4096];
    assert_eq!(size_suitable_for_a_power_of_two_ring_queue(3000, &pages, 4096), Some(4096));
    assert_eq!(size_suitable_for_a_power_of_two_ring_queue(3000, &pages, u64::MAX), Some(2 * 1024 * 1024));
    assert_eq!(size_suitable_for_a_power_of_two_ring_queue(3000, &pages, 10), None);
    assert_eq!(size_suitable_for_a_power_of_two_ring_queue(3000, &vec![], 4096), None);
}
