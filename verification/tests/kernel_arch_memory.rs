use pamplemouche::interrupts::{InterruptIndex, PIC_1_OFFSET, PIC_2_OFFSET};
use pamplemouche::memory::allocator::{heap_pages, HEAP_SIZE, HEAP_START};
use pamplemouche::memory::frame_allocator::{BootInfoFrameAllocator, MemoryRegion};
use pamplemouche::memory::paging::{map_error_message, translate, MapError, Translation};

#[test]
fn interrupt_vectors() {
    assert_eq!(PIC_1_OFFSET, 32);
    assert_eq!(PIC_2_OFFSET, 40);
    assert_eq!(InterruptIndex::Timer.as_u8(), 32);
    assert_eq!(InterruptIndex::Keyboard.as_u8(), 33);
    assert_eq!(InterruptIndex::Keyboard.as_usize(), 33);
}

#[test]
fn frames_come_from_usable_regions_in_order() {
    let map = vec![
        MemoryRegion { start: 0, end: 0x1000, usable: false },
        MemoryRegion { start: 0x1000, end: 0x3000, usable: true },
        MemoryRegion { start: 0x3000, end: 0x8000, usable: false },
        MemoryRegion { start: 0x8000, end: 0x9800, usable: true },
    ];
    let mut a = BootInfoFrameAllocator::init(map);
    assert_eq!(a.allocate_frame(), Some(0x1000));
    assert_eq!(a.allocate_frame(), Some(0x2000));
    assert_eq!(a.allocate_frame(), Some(0x8000));
    assert_eq!(a.allocate_frame(), Some(0x9000));
    assert_eq!(a.allocate_frame(), None);
    assert_eq!(a.allocate_frame(), None);
}

#[test]
fn unaligned_region_frames_are_aligned_down() {
    let map = vec![MemoryRegion { start: 0x1234, end: 0x3000, usable: true }];
    let mut a = BootInfoFrameAllocator::init(map);
    assert_eq!(a.next_frame_addr(), Some(0x1234));
    assert_eq!(a.allocate_frame(), Some(0x1000));
    assert_eq!(a.next_frame_addr(), Some(0x2234));
    assert_eq!(a.allocate_frame(), Some(0x2000));
    assert_eq!(a.next_frame_addr(), None);
    assert_eq!(a.allocate_frame(), None);
}

#[test]
fn empty_map_has_no_frames() {
    let mut a = BootInfoFrameAllocator::init(vec![]);
    assert_eq!(a.allocate_frame(), None);
}

#[test]
fn heap_pages_cover_heap() {
    let pages = heap_pages();
    assert_eq!(pages.len(), 256);
    assert_eq!(pages[0], HEAP_START);
    assert_eq!(pages[255], HEAP_START + HEAP_SIZE - 4096);
    assert!(pages.windows(2).all(|w| w[1] == w[0] + 4096));
}

#[test]
fn translate_results() {
    assert_eq!(translate(Translation::Mapped { frame_start: 0x5000, offset: 0x123 }), Some(0x5123));
    assert_eq!(translate(Translation::NotMapped), None);
    assert_eq!(translate(Translation::InvalidFrameAddress), None);
}

#[test]
fn map_error_messages() {
    assert_eq!(map_error_message(MapError::FrameAllocationFailed), "frame allocation failed");
    assert_eq!(map_error_message(MapError::ParentEntryHugePage), "parent entry is a huge page");
    assert_eq!(map_error_message(MapError::PageAlreadyMapped), "page already mapped");
}

#[test]
fn reserved_regions_anywhere_do_not_disturb_order() {
    let map = vec![
        MemoryRegion { start: 0x1000, end: 0x2000, usable: true },
        MemoryRegion { start: 0x0, end: 0x10_0000, usable: false },
        MemoryRegion { start: 0x5000, end: 0x6000, usable: true },
    ];
    let mut a = BootInfoFrameAllocator::init(map);
    assert_eq!(a.allocate_frame(), Some(0x1000));
    assert_eq!(a.allocate_frame(), Some(0x5000));
    assert_eq!(a.allocate_frame(), None);
}
