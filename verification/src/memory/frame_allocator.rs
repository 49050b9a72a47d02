//! Physical frame allocator backed by the bootloader's memory map.
//!
//! Walks all `Usable` memory regions and hands out 4 KiB frames in a
//! monotonically-increasing fashion.  This simple bump allocator is adequate
//! for kernel start-up; a proper buddy allocator can replace it later.
use vstd::prelude::*;
use x86_64::structures::paging::{PhysFrame, Size4KiB};
use x86_64::PhysAddr;

verus! {

/// Size of a physical frame.
pub const FRAME_SIZE: u64 = 4096;

/// One region of the bootloader's memory map: the physical addresses
/// `start..end`, and whether the region is usable by the kernel.
#[derive(Debug, Clone, Copy, PartialEq, Eq, Structural)]
pub struct MemoryRegion {
    pub start: u64,
    pub end: u64,
    pub usable: bool,
}

/// How many frame addresses `start, start + 4096, ...` below `end` a usable
/// region yields; none for a region that is not usable.
pub open spec fn region_frame_count(r: MemoryRegion) -> int {
    if r.usable && r.start < r.end {
        (r.end - r.start + FRAME_SIZE - 1) / (FRAME_SIZE as int)
    } else {
        0
    }
}

/// The addresses that a region yields, one every 4096 bytes from its start.
pub open spec fn region_frames(r: MemoryRegion) -> Seq<int> {
    Seq::new(region_frame_count(r) as nat, |k: int| r.start + FRAME_SIZE * k)
}

/// The addresses of all usable frames of the memory map, region after
/// region.
pub open spec fn usable_frame_addrs(map: Seq<MemoryRegion>) -> Seq<int>
    decreases map.len(),
{
    if map.len() == 0 {
        Seq::empty()
    } else {
        usable_frame_addrs(map.drop_last()) + region_frames(map.last())
    }
}

/// Physical addresses must fit in 52 bits.
pub open spec fn valid_phys_addr(a: int) -> bool {
    0 <= a < 0x10_0000_0000_0000
}

/// The trusted bridge to x86_64's `PhysFrame::<Size4KiB>::containing_address`
/// (with `PhysAddr::new`, which panics above 52 bits): the start of the 4 KiB
/// frame that holds `addr`, that is `addr` aligned down to 4096.
#[verifier::external_body]
fn frame_containing(addr: u64) -> (start: u64)
    requires
        valid_phys_addr(addr as int),
    ensures
        start == addr - addr % 4096,
{
    PhysFrame::<Size4KiB>::containing_address(PhysAddr::new(addr)).start_address().as_u64()
}

/// The frames of `map.take(i)` come first among the frames of `map`.
proof fn lemma_usable_frames_prefix(map: Seq<MemoryRegion>, i: int, j: int)
    requires
        0 <= i <= j <= map.len(),
    ensures
        usable_frame_addrs(map.take(i)).len() <= usable_frame_addrs(map.take(j)).len(),
        forall|k: int|
            0 <= k < usable_frame_addrs(map.take(i)).len() ==> #[trigger] usable_frame_addrs(
                map.take(i),
            )[k] == usable_frame_addrs(map.take(j))[k],
    decreases j - i,
{
    if i < j {
        lemma_usable_frames_prefix(map, i, j - 1);
        assert(map.take(j).drop_last() =~= map.take(j - 1));
    }
}

/// Every frame address of the memory map lies in one of its usable
/// regions: the allocator hands out only usable memory.
pub proof fn lemma_usable_frames_in_usable_regions(map: Seq<MemoryRegion>)
    ensures
        forall|a: int|
            #![trigger usable_frame_addrs(map)[a]]
            0 <= a < usable_frame_addrs(map).len() ==> exists|i: int|
                0 <= i < map.len() && #[trigger] map[i].usable && map[i].start <= usable_frame_addrs(map)[a]
                    < map[i].end,
    decreases map.len(),
{
    if map.len() > 0 {
        let rest = map.drop_last();
        lemma_usable_frames_in_usable_regions(rest);
        let p = usable_frame_addrs(rest);
        let r = region_frames(map.last());
        let f = usable_frame_addrs(map);
        assert(f == p + r);
        let last = map.last();
        assert forall|a: int| #![trigger f[a]] 0 <= a < f.len() implies exists|i: int|
            0 <= i < map.len() && #[trigger] map[i].usable && map[i].start <= f[a] < map[i].end by {
            if a < p.len() {
                let i = choose|i: int|
                    0 <= i < rest.len() && #[trigger] rest[i].usable && rest[i].start <= p[a] < rest[i].end;
                assert(map[i] == rest[i]);
            } else {
                let k = a - p.len();
                assert(f[a] == r[k]);
                assert(r[k] == last.start + 4096 * k);
                assert(k < region_frame_count(last));
                assert(map[map.len() - 1] == last);
            }
        }
    }
}

/// Memory maps whose usable regions start on frame boundaries and come in
/// address order without overlapping; the other regions may lie anywhere.
pub open spec fn sorted_aligned(map: Seq<MemoryRegion>) -> bool {
    &&& forall|i: int| 0 <= i < map.len() && #[trigger] map[i].usable ==> map[i].start % 4096 == 0
    &&& forall|i: int, j: int|
        0 <= i < j < map.len() && #[trigger] map[i].usable && #[trigger] map[j].usable ==> map[i].end
            <= map[j].start
}

/// On a memory map whose usable regions are sorted and frame-aligned, the
/// usable frames come in strictly increasing order, each on a frame
/// boundary: the allocator hands out each frame once, in increasing
/// address order.
pub proof fn lemma_usable_frames_increasing(map: Seq<MemoryRegion>)
    requires
        sorted_aligned(map),
    ensures
        forall|a: int| 0 <= a < usable_frame_addrs(map).len() ==> #[trigger] usable_frame_addrs(map)[a] % 4096 == 0,
        forall|a: int, b: int|
            0 <= a < b < usable_frame_addrs(map).len() ==> #[trigger] usable_frame_addrs(map)[a]
                < #[trigger] usable_frame_addrs(map)[b],
    decreases map.len(),
{
    if map.len() > 0 {
        let rest = map.drop_last();
        assert(sorted_aligned(rest)) by {
            assert forall|i: int| 0 <= i < rest.len() && #[trigger] rest[i].usable implies rest[i].start % 4096
                == 0 by {
                assert(map[i] == rest[i]);
            }
            assert forall|i: int, j: int|
                0 <= i < j < rest.len() && #[trigger] rest[i].usable && #[trigger] rest[j].usable implies rest[i].end
                    <= rest[j].start by {
                assert(map[i] == rest[i] && map[j] == rest[j]);
            }
        }
        lemma_usable_frames_increasing(rest);
        lemma_usable_frames_in_usable_regions(rest);
        let p = usable_frame_addrs(rest);
        let r = region_frames(map.last());
        let f = usable_frame_addrs(map);
        assert(f == p + r);
        let last = map.last();
        if r.len() == 0 {
            assert(f =~= p);
        } else {
            assert(last.usable);
            assert(map[map.len() - 1] == last);
            assert(last.start % 4096 == 0);
            assert forall|k: int| 0 <= k < r.len() implies #[trigger] r[k] >= last.start && r[k] % 4096 == 0 by {
                assert(r[k] == last.start + 4096 * k);
            }
            assert forall|a: int| 0 <= a < p.len() implies #[trigger] p[a] < last.start by {
                let i = choose|i: int|
                    0 <= i < rest.len() && #[trigger] rest[i].usable && rest[i].start <= p[a] < rest[i].end;
                assert(map[i] == rest[i]);
                assert(map[i].usable && map[map.len() - 1].usable);
                assert(map[i].end <= map[map.len() - 1].start);
            }
            assert forall|a: int| 0 <= a < f.len() implies #[trigger] f[a] % 4096 == 0 by {
                if a >= p.len() {
                    assert(f[a] == r[a - p.len()]);
                }
            }
            assert forall|a: int, b: int| 0 <= a < b < f.len() implies #[trigger] f[a] < #[trigger] f[b] by {
                if b < p.len() {
                } else if a < p.len() {
                    assert(f[b] == r[b - p.len()]);
                } else {
                    assert(f[a] == r[a - p.len()]);
                    assert(f[b] == r[b - p.len()]);
                }
            }
        }
    }
}

/// On a memory map whose usable regions are sorted and frame-aligned, the
/// frames that `allocate_frame` hands out on its `k`-th and later `l`-th
/// calls (as its contract gives them) come in strictly increasing order, so
/// no frame is handed out twice, and each lies in a usable region.
pub proof fn lemma_handed_out_frames(map: Seq<MemoryRegion>, k: int, l: int)
    requires
        sorted_aligned(map),
        0 <= k < l < usable_frame_addrs(map).len(),
    ensures
        ({
            let f = usable_frame_addrs(map);
            let fk = f[k] - f[k] % 4096;
            let fl = f[l] - f[l] % 4096;
            &&& fk < fl
            &&& exists|i: int| 0 <= i < map.len() && #[trigger] map[i].usable && map[i].start <= fk < map[i].end
        }),
{
    lemma_usable_frames_increasing(map);
    lemma_usable_frames_in_usable_regions(map);
    let f = usable_frame_addrs(map);
    assert(f[k] % 4096 == 0 && f[l] % 4096 == 0);
    assert(f[k] < f[l]);
}

/// A frame allocator that consumes the bootloader memory map.
pub struct BootInfoFrameAllocator {
    memory_map: Vec<MemoryRegion>,
    next: usize,
}

impl BootInfoFrameAllocator {
    /// The memory map the frames come from.
    pub closed spec fn memory_map(&self) -> Seq<MemoryRegion> {
        self.memory_map@
    }

    /// How many frames have been handed out (or asked for) so far.
    pub closed spec fn next_index(&self) -> int {
        self.next as int
    }

    /// Create the allocator from the bootloader memory map.  The regions
    /// marked as usable must be genuinely unused.
    pub fn init(memory_map: Vec<MemoryRegion>) -> (a: Self)
        ensures
            a.memory_map() == memory_map@,
            a.next_index() == 0,
    {
        BootInfoFrameAllocator { memory_map, next: 0 }
    }

    /// The `next`-th usable address of the memory map, which the next call
    /// of `allocate_frame` hands out the frame of, or `None` once the usable
    /// addresses are exhausted.
    pub fn next_frame_addr(&self) -> (addr: Option<u64>)
        ensures
            self.next_index() < usable_frame_addrs(self.memory_map()).len() ==> addr == Some(
                usable_frame_addrs(self.memory_map())[self.next_index()] as u64,
            ),
            self.next_index() >= usable_frame_addrs(self.memory_map()).len() ==> addr is None,
    {
        let ghost map = self.memory_map@;
        let ghost frames = usable_frame_addrs(map);
        let n = self.memory_map.len();
        // Position of the wanted frame among those of the regions not yet walked.
        let mut remaining: u64 = self.next as u64;
        let mut i: usize = 0;
        proof {
            assert(map.take(0) =~= Seq::<MemoryRegion>::empty());
            assert(map.take(n as int) =~= map);
        }
        while i < n
            invariant
                n == map.len(),
                map == self.memory_map@,
                frames == usable_frame_addrs(map),
                i <= n,
                usable_frame_addrs(map.take(i as int)).len() + remaining == self.next,
                map.take(n as int) == map,
            decreases n - i,
        {
            let region = self.memory_map[i];
            proof {
                assert(map.take(i + 1).drop_last() =~= map.take(i as int));
                assert(map.take(i + 1).last() == region);
                lemma_usable_frames_prefix(map, i + 1, n as int);
            }
            if region.usable && region.start < region.end {
                let count: u64 = (region.end - region.start - 1) / FRAME_SIZE + 1;
                assert(count == region_frame_count(region));
                if remaining < count {
                    assert(remaining * FRAME_SIZE <= region.end - region.start - 1) by (nonlinear_arith)
                        requires
                            remaining < count,
                            count == (region.end - region.start - 1) / FRAME_SIZE as int + 1,
                            region.start < region.end,
                    ;
                    let addr = region.start + remaining * FRAME_SIZE;
                    proof {
                        let prefix = usable_frame_addrs(map.take(i as int));
                        assert(usable_frame_addrs(map.take(i + 1)) == prefix + region_frames(region));
                        assert(usable_frame_addrs(map.take(i + 1))[self.next as int] == addr);
                        assert(frames[self.next as int] == addr);
                    }
                    return Some(addr);
                }
                remaining = remaining - count;
            }
            i += 1;
        }
        None
    }

    /// Hand out the next usable frame: the start address of the frame that
    /// holds the `next`-th usable address, or `None` once they are exhausted.
    pub fn allocate_frame(&mut self) -> (frame: Option<u64>)
        requires
            old(self).next_index() < usize::MAX,
            old(self).next_index() < usable_frame_addrs(old(self).memory_map()).len()
                ==> valid_phys_addr(usable_frame_addrs(old(self).memory_map())[old(self).next_index()]),
        ensures
            final(self).memory_map() == old(self).memory_map(),
            final(self).next_index() == old(self).next_index() + 1,
            old(self).next_index() < usable_frame_addrs(old(self).memory_map()).len() ==> frame
                == Some(
                (usable_frame_addrs(old(self).memory_map())[old(self).next_index()]
                    - usable_frame_addrs(old(self).memory_map())[old(self).next_index()] % 4096) as u64,
            ),
            old(self).next_index() >= usable_frame_addrs(old(self).memory_map()).len() ==> frame
                is None,
    {
        let addr = self.next_frame_addr();
        self.next = self.next + 1;
        match addr {
            Some(a) => Some(frame_containing(a)),
            None => None,
        }
    }
}

} // verus!
