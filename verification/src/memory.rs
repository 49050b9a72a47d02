//! Memory subsystem — the physical frame allocator, the kernel heap's page
//! range, and the page-table results the kernel acts on.
pub mod allocator;
pub mod frame_allocator;
pub mod paging;
