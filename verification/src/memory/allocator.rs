//! Kernel heap placement.
//!
//! The heap lives in a dedicated virtual-address range
//! (`HEAP_START … HEAP_START + HEAP_SIZE`).  During initialisation the kernel
//! maps one physical frame to each page of that range, then hands the range
//! to the heap allocator.
use vstd::prelude::*;
use x86_64::structures::paging::{Page, Size4KiB};
use x86_64::VirtAddr;

verus! {

/// Start of the kernel heap in the virtual address space.
pub const HEAP_START: u64 = 0x_4444_4444_0000;
/// Heap size: 1 MiB — can be grown later.
pub const HEAP_SIZE: u64 = 1024 * 1024;
/// Size of a page.
pub const PAGE_SIZE: u64 = 4096;

/// Addresses in the lower half of the canonical virtual address space.
pub open spec fn lower_half(a: int) -> bool {
    0 <= a < 0x8000_0000_0000
}

/// The trusted bridge to x86_64's `Page::<Size4KiB>::containing_address`
/// (with `VirtAddr::new`, which panics on a non-canonical address): the
/// start of the 4 KiB page that holds `addr`, that is `addr` aligned down to
/// 4096.
#[verifier::external_body]
fn page_containing(addr: u64) -> (start: u64)
    requires
        lower_half(addr as int),
    ensures
        start == addr - addr % 4096,
{
    Page::<Size4KiB>::containing_address(VirtAddr::new(addr)).start_address().as_u64()
}

/// The pages the heap occupies: every page from the one holding the heap's
/// first byte to the one holding its last, in order.
pub fn heap_pages() -> (pages: Vec<u64>)
    ensures
        pages@.len() == (HEAP_SIZE as int) / (PAGE_SIZE as int),
        forall|k: int| 0 <= k < pages@.len() ==> #[trigger] pages@[k] == HEAP_START + PAGE_SIZE * k,
{
    let start = HEAP_START;
    let end = start + HEAP_SIZE - 1;
    let first = page_containing(start);
    let last = page_containing(end);
    assert(first == HEAP_START && last == HEAP_START + HEAP_SIZE - PAGE_SIZE);

    let mut pages: Vec<u64> = Vec::new();
    let mut page = first;
    while page <= last
        invariant
            first == HEAP_START,
            last == HEAP_START + HEAP_SIZE - PAGE_SIZE,
            first <= page <= last + PAGE_SIZE,
            (page - first) % (PAGE_SIZE as int) == 0,
            pages@.len() == (page - first) / (PAGE_SIZE as int),
            forall|k: int| 0 <= k < pages@.len() ==> #[trigger] pages@[k] == HEAP_START + PAGE_SIZE * k,
        decreases last + PAGE_SIZE - page,
    {
        pages.push(page);
        page = page + PAGE_SIZE;
    }
    pages
}

} // verus!
