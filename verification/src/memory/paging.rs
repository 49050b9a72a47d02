//! Virtual memory / page-table results.
//!
//! The kernel walks and edits its page tables through the `OffsetPageTable`
//! of the `x86_64` crate; the functions here decide what the kernel reports
//! from those operations.
use vstd::prelude::*;
use x86_64::PhysAddr;

verus! {

/// Why mapping a page failed.
#[derive(Debug, Clone, Copy, PartialEq, Eq, Structural)]
pub enum MapError {
    /// No physical frame was left for a new page table.
    FrameAllocationFailed,
    /// A parent entry of the page is a huge page.
    ParentEntryHugePage,
    /// The page was already mapped.
    PageAlreadyMapped,
}

/// The message the kernel reports for a failed mapping.
pub fn map_error_message(e: MapError) -> (msg: &'static str)
    ensures
        e == MapError::FrameAllocationFailed ==> msg@ == "frame allocation failed"@,
        e == MapError::ParentEntryHugePage ==> msg@ == "parent entry is a huge page"@,
        e == MapError::PageAlreadyMapped ==> msg@ == "page already mapped"@,
{
    match e {
        MapError::FrameAllocationFailed => "frame allocation failed",
        MapError::ParentEntryHugePage => "parent entry is a huge page",
        MapError::PageAlreadyMapped => "page already mapped",
    }
}

/// What walking the page tables gives for a virtual address.
#[derive(Debug, Clone, Copy, PartialEq, Eq, Structural)]
pub enum Translation {
    /// The address lies in the frame starting at `frame_start`, `offset`
    /// bytes in.
    Mapped { frame_start: u64, offset: u64 },
    /// The address is not mapped.
    NotMapped,
    /// A page-table entry points at an invalid frame.
    InvalidFrameAddress,
}

/// Physical addresses must fit in 52 bits.
pub open spec fn valid_phys_addr(a: int) -> bool {
    0 <= a < 0x10_0000_0000_0000
}

/// The trusted bridge to x86_64's `PhysAddr + u64` (with `PhysAddr::new`,
/// both of which panic when the address does not fit in 52 bits): the
/// physical address `offset` bytes after `base`.
#[verifier::external_body]
fn phys_addr_add(base: u64, offset: u64) -> (r: u64)
    requires
        valid_phys_addr(base as int),
        valid_phys_addr(base + offset),
    ensures
        r == base + offset,
{
    (PhysAddr::new(base) + offset).as_u64()
}

/// Translate a virtual address to its mapped physical address (if any),
/// from the result of walking the page tables for it.
pub fn translate(result: Translation) -> (phys: Option<u64>)
    requires
        result matches Translation::Mapped { frame_start, offset } ==> valid_phys_addr(
            frame_start as int,
        ) && valid_phys_addr(frame_start + offset),
    ensures
        match result {
            Translation::Mapped { frame_start, offset } => phys == Some((frame_start + offset) as u64),
            _ => phys is None,
        },
{
    match result {
        Translation::Mapped { frame_start, offset } => Some(phys_addr_add(frame_start, offset)),
        _ => None,
    }
}

} // verus!
