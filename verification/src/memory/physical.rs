//! The bootstrap physical frame allocator.
//!
//! It consumes the firmware memory map and hands out 4 KiB frames in
//! ascending address order across the usable regions, forward only and
//! without reclaiming: a correctness-first strategy for the small number of
//! frames needed before paging structures exist.

use vstd::prelude::*;

use crate::memory::{
    regions_wf, usable_frames_of, MemoryMap, MemoryRegion, MemoryRegionType, MAX_FRAME_NUMBER,
};

verus! {

/// How many bytes of physical memory one frame of allocation bitmap could
/// describe: 0x1000 * 8 bits, each standing for one 0x1000-byte frame.
pub const ADDRESSES_PER_FRAME: u64 = 0x1000 * 8 * 0x1000;

/// The frame number of the last frame of the last usable region, or -1 when
/// either no region is usable or that region is empty and starts at zero.
pub open spec fn highest_usable_frame(regions: Seq<MemoryRegion>) -> int
    decreases regions.len(),
{
    if regions.len() == 0 {
        -1
    } else if regions.last().region_type == MemoryRegionType::Usable {
        regions.last().end_frame_number - 1
    } else {
        highest_usable_frame(regions.drop_last())
    }
}

/// A frame-aligned unit of physical memory, identified by its frame number.
#[derive(Clone, Copy, PartialEq, Eq, Structural, Debug)]
pub struct PhysicalFrame {
    /// The frame number; the frame starts at address `number * 4096`.
    pub number: u64,
}

impl PhysicalFrame {
    /// The physical address at which the frame starts.
    pub fn start_address(&self) -> (r: u64)
        requires
            self.number <= crate::memory::MAX_FRAME_NUMBER,
        ensures
            r == self.number * 4096,
    {
        self.number * 4096
    }
}

/// The physical allocator. It keeps the memory map handed over at boot and a
/// count of the frames already handed out; it never reuses a frame.
pub struct PhysicalMemoryManager {
    /// The memory map recorded by `init`, absent until then.
    memory_map: Option<MemoryMap>,
    /// How many usable frames have been handed out so far.
    simple_allocated_pages: usize,
}

impl PhysicalMemoryManager {
    /// Whether `init` has recorded a memory map.
    pub closed spec fn initialized(self) -> bool {
        self.memory_map is Some
    }

    /// The recorded memory map.
    pub closed spec fn map(self) -> MemoryMap
        recommends
            self.initialized(),
    {
        self.memory_map->Some_0
    }

    /// How many frames have been handed out.
    pub closed spec fn allocated(self) -> nat {
        self.simple_allocated_pages as nat
    }

    /// All usable frames of the recorded map, in ascending order.
    pub open spec fn usable(self) -> Seq<u64>
        recommends
            self.initialized(),
    {
        usable_frames_of(self.map()@)
    }

    /// The allocator is well formed once its recorded map is.
    pub open spec fn wf(self) -> bool {
        self.initialized() ==> self.map().wf()
    }

    /// A fresh allocator, not yet initialized; it must be given a memory map
    /// before the first allocation.
    pub fn new() -> (r: PhysicalMemoryManager)
        ensures
            !r.initialized(),
            r.allocated() == 0,
            r.wf(),
    {
        PhysicalMemoryManager { memory_map: None, simple_allocated_pages: 0 }
    }

    /// Records the memory map. Must run exactly once, before any allocation;
    /// the offset of the fully mapped physical address space is accepted for
    /// interface compatibility and not consulted by the bootstrap allocator.
    pub fn init(&mut self, _virt_addr_offset: u64, memory_map: MemoryMap)
        requires
            !old(self).initialized(),
            memory_map.wf(),
        ensures
            final(self).initialized(),
            final(self).map() == memory_map,
            final(self).allocated() == old(self).allocated(),
            final(self).wf(),
    {
        self.memory_map = Some(memory_map);
    }

    /// Collects the usable frame numbers of `memory_map` in ascending order:
    /// the flattening of the frame ranges of its `Usable` regions.
    #[verifier::rlimit(50)]
    pub fn get_frame_iterator(memory_map: &MemoryMap) -> (r: Vec<u64>)
        requires
            memory_map.wf(),
        ensures
            r@ == usable_frames_of(memory_map@),
    {
        let regions = memory_map.regions();
        let ghost all = memory_map@;
        let mut frames: Vec<u64> = Vec::new();
        let n = regions.len();
        assert(all.subrange(0, 0) =~= Seq::<MemoryRegion>::empty());
        for i in 0..n
            invariant
                n == all.len(),
                regions@ == all,
                regions_wf(all),
                frames@ == usable_frames_of(all.subrange(0, i as int)),
        {
            let region = regions[i];
            if region.region_type == MemoryRegionType::Usable {
                let ghost before = frames@;
                let mut f = region.start_frame_number;
                while f < region.end_frame_number
                    invariant
                        region.start_frame_number <= f <= region.end_frame_number,
                        region.region_type == MemoryRegionType::Usable,
                        frames@ == before + Seq::new(
                            (f - region.start_frame_number) as nat,
                            |k: int| (region.start_frame_number + k) as u64,
                        ),
                    decreases region.end_frame_number - f,
                {
                    frames.push(f);
                    assert(frames@ =~= before + Seq::new(
                        (f + 1 - region.start_frame_number) as nat,
                        |k: int| (region.start_frame_number + k) as u64,
                    ));
                    f = f + 1;
                }
                assert(frames@ =~= before + region.frames());
            } else {
                assert(frames@ =~= frames@ + region.frames());
            }
            proof {
                lemma_usable_frames_snoc(all, i as int);
            }
        }
        assert(all.subrange(0, n as int) =~= all);
        frames
    }

    /// Returns the next unused frame in ascending address order across the
    /// usable regions, or nothing once they are exhausted. The internal count
    /// advances only when a frame is actually handed out, so exhaustion does
    /// not use up a slot.
    pub fn allocate_frame(&mut self) -> (r: Option<PhysicalFrame>)
        requires
            old(self).initialized(),
            old(self).wf(),
        ensures
            final(self).initialized(),
            final(self).wf(),
            final(self).map() == old(self).map(),
            if old(self).allocated() < old(self).usable().len() {
                &&& r == Some(
                    PhysicalFrame { number: old(self).usable()[old(self).allocated() as int] },
                )
                &&& final(self).allocated() == old(self).allocated() + 1
            } else {
                &&& r is None
                &&& final(self).allocated() == old(self).allocated()
            },
    {
        let frames = match &self.memory_map {
            Some(map) => Self::get_frame_iterator(map),
            None => Vec::new(),  // unreachable: a map is recorded before any allocation
        };
        if self.simple_allocated_pages < frames.len() {
            let number = frames[self.simple_allocated_pages];
            self.simple_allocated_pages = self.simple_allocated_pages + 1;
            Some(PhysicalFrame { number })
        } else {
            None
        }
    }

    /// Requests at the coarser 2 MiB granularity are explicitly unsupported
    /// by the bootstrap allocator and always yield nothing.
    pub fn allocate_frame_2mib(&mut self) -> (r: Option<PhysicalFrame>)
        ensures
            r is None,
            *final(self) == *old(self),
    {
        None
    }

    /// The frame number of the last frame of the last usable region of the
    /// map; the map must contain a usable region with at least one frame.
    pub fn get_higest_physical_frame(memory_map: &MemoryMap) -> (r: u64)
        requires
            highest_usable_frame(memory_map@) >= 0,
        ensures
            r == highest_usable_frame(memory_map@),
    {
        let regions = memory_map.regions();
        let ghost all = memory_map@;
        let mut i = regions.len();
        assert(all.subrange(0, i as int) =~= all);
        while 0 < i
            invariant
                i <= all.len(),
                regions@ == all,
                all == memory_map@,
                highest_usable_frame(all.subrange(0, i as int)) == highest_usable_frame(all),
                highest_usable_frame(all) >= 0,
            decreases i,
        {
            let region = regions[i - 1];
            let ghost prefix = all.subrange(0, i as int);
            assert(prefix.last() == region);
            assert(prefix.drop_last() =~= all.subrange(0, i - 1));
            if region.region_type == MemoryRegionType::Usable {
                assert(highest_usable_frame(prefix) == region.end_frame_number - 1);
                assert(region.end_frame_number >= 1);
                let highest = region.end_frame_number - 1;
                assert(highest == highest_usable_frame(all));
                return highest;
            }
            i = i - 1;
        }
        // never reached: the precondition puts a usable region in the map,
        // so the loop returns before the prefix is exhausted
        assert(all.subrange(0, 0) =~= Seq::<MemoryRegion>::empty());
        assert(false);
        0
    }

    /// How many frames an allocation bitmap covering physical memory up to
    /// the highest usable frame would itself occupy.
    pub fn register_pages_for_allocation_map(memory_map: &MemoryMap) -> (r: u64)
        requires
            memory_map.wf(),
            highest_usable_frame(memory_map@) >= 0,
        ensures
            r == highest_usable_frame(memory_map@) * 0x1000 / (ADDRESSES_PER_FRAME as int) + 1,
    {
        let highest_frame = Self::get_higest_physical_frame(memory_map);
        proof {
            lemma_highest_usable_frame_bound(memory_map@);
        }
        (highest_frame * 0x1000) / ADDRESSES_PER_FRAME + 1
    }

    /// Renders the map for diagnostic listing: one row of byte addresses and
    /// size per region, in map order.
    #[verifier::rlimit(50)]
    pub fn list_memory_regions(memory_map: &MemoryMap) -> (r: Vec<MemoryRegionReport>)
        requires
            memory_map.wf(),
        ensures
            r@.len() == memory_map@.len(),
            forall|i: int| 0 <= i < r@.len() ==> #[trigger] r@[i] == region_report(memory_map@[i]),
    {
        let regions = memory_map.regions();
        let ghost all = memory_map@;
        let mut rows: Vec<MemoryRegionReport> = Vec::new();
        let n = regions.len();
        for i in 0..n
            invariant
                n == all.len(),
                regions@ == all,
                regions_wf(all),
                rows@.len() == i,
                forall|k: int| 0 <= k < i ==> #[trigger] rows@[k] == region_report(all[k]),
        {
            let region = regions[i];
            rows.push(
                MemoryRegionReport {
                    start_addr: region.start_frame_number * 4096,
                    end_addr: region.end_frame_number * 4096,
                    size_kib: (region.end_frame_number - region.start_frame_number) * 4,
                    region_type: region.region_type,
                },
            );
        }
        rows
    }
}

/// One row of the diagnostic region listing: the byte addresses and the size
/// in KiB of one region.
#[derive(Clone, Copy, PartialEq, Eq, Structural, Debug)]
pub struct MemoryRegionReport {
    /// The byte address at which the region starts.
    pub start_addr: u64,
    /// The byte address one past the region's end.
    pub end_addr: u64,
    /// The size of the region in KiB.
    pub size_kib: u64,
    /// The class of the region.
    pub region_type: MemoryRegionType,
}

/// The listing row that describes `region`.
pub open spec fn region_report(region: MemoryRegion) -> MemoryRegionReport {
    MemoryRegionReport {
        start_addr: (region.start_frame_number * 4096) as u64,
        end_addr: (region.end_frame_number * 4096) as u64,
        size_kib: ((region.end_frame_number - region.start_frame_number) * 4) as u64,
        region_type: region.region_type,
    }
}

/// Law of the empty map: a map without regions describes no usable frames,
/// so allocation from it always yields nothing.
pub proof fn lemma_empty_map_has_no_frames(regions: Seq<MemoryRegion>)
    requires
        regions.len() == 0,
    ensures
        usable_frames_of(regions).len() == 0,
{
}

/// Law of the fully reserved map: a map none of whose regions is usable
/// describes no usable frames, so allocation from it always yields nothing.
pub proof fn lemma_no_usable_region_no_frames(regions: Seq<MemoryRegion>)
    requires
        forall|i: int|
            0 <= i < regions.len() ==> (#[trigger] regions[i]).region_type
                != MemoryRegionType::Usable,
    ensures
        usable_frames_of(regions).len() == 0,
    decreases regions.len(),
{
    if regions.len() > 0 {
        assert(regions[0].frames() == Seq::<u64>::empty());
        assert(forall|i: int|
            0 <= i < regions.skip(1).len() ==> regions.skip(1)[i] == regions[i + 1]);
        lemma_no_usable_region_no_frames(regions.skip(1));
    }
}

/// Every usable frame of a well formed, non-empty region sequence lies at or
/// above the first region's start.
#[verifier::rlimit(50)]
proof fn lemma_usable_frames_lower_bound(regions: Seq<MemoryRegion>, k: int)
    requires
        regions_wf(regions),
        regions.len() > 0,
        0 <= k < usable_frames_of(regions).len(),
    ensures
        usable_frames_of(regions)[k] >= regions[0].start_frame_number,
    decreases regions.len(),
{
    let first = regions[0].frames();
    let rest = regions.skip(1);
    assert(regions_wf(rest)) by {
        assert(forall|i: int| 0 <= i < rest.len() ==> rest[i] == regions[i + 1]);
    }
    assert(usable_frames_of(regions) == first + usable_frames_of(rest));
    if rest.len() == 0 {
        assert(usable_frames_of(rest) == Seq::<u64>::empty());
    }
    if k < first.len() {
        assert(first[k] == regions[0].start_frame_number + k);
    } else {
        assert(rest.len() > 0);
        lemma_usable_frames_lower_bound(rest, k - first.len());
        assert(usable_frames_of(regions)[k] == usable_frames_of(rest)[k - first.len()]);
        assert(rest[0] == regions[1]);
        assert(regions[0].end_frame_number <= regions[1].start_frame_number);
        assert(regions[0].start_frame_number <= regions[0].end_frame_number);
    }
}

/// Law of allocation order: in a well formed map the usable frames form a
/// strictly increasing sequence, so the frames the allocator hands out are
/// strictly greater than every frame handed out before, and no frame is ever
/// handed out twice.
#[verifier::rlimit(50)]
pub proof fn lemma_usable_frames_increasing(regions: Seq<MemoryRegion>, i: int, j: int)
    requires
        regions_wf(regions),
        0 <= i < j < usable_frames_of(regions).len(),
    ensures
        usable_frames_of(regions)[i] < usable_frames_of(regions)[j],
    decreases regions.len(),
{
    assert(regions.len() > 0);
    let first = regions[0].frames();
    let rest = regions.skip(1);
    assert(regions_wf(rest)) by {
        assert(forall|k: int| 0 <= k < rest.len() ==> rest[k] == regions[k + 1]);
    }
    assert(usable_frames_of(regions) == first + usable_frames_of(rest));
    if rest.len() == 0 {
        assert(usable_frames_of(rest) == Seq::<u64>::empty());
    }
    if j < first.len() {
        assert(first[i] == regions[0].start_frame_number + i);
        assert(first[j] == regions[0].start_frame_number + j);
    } else if i < first.len() {
        assert(first[i] == regions[0].start_frame_number + i);
        assert(usable_frames_of(regions)[i] < regions[0].end_frame_number);
        assert(rest.len() > 0);
        lemma_usable_frames_lower_bound(rest, j - first.len());
        assert(usable_frames_of(regions)[j] == usable_frames_of(rest)[j - first.len()]);
        assert(rest[0] == regions[1]);
        assert(regions[0].end_frame_number <= regions[1].start_frame_number);
    } else {
        lemma_usable_frames_increasing(rest, i - first.len(), j - first.len());
        assert(usable_frames_of(regions)[i] == usable_frames_of(rest)[i - first.len()]);
        assert(usable_frames_of(regions)[j] == usable_frames_of(rest)[j - first.len()]);
    }
}

/// In a well formed region sequence the highest usable frame number stays
/// below the frame-number bound.
proof fn lemma_highest_usable_frame_bound(regions: Seq<MemoryRegion>)
    requires
        regions_wf(regions),
    ensures
        highest_usable_frame(regions) <= MAX_FRAME_NUMBER - 1,
    decreases regions.len(),
{
    if regions.len() > 0 && regions.last().region_type != MemoryRegionType::Usable {
        assert(regions_wf(regions.drop_last()));
        lemma_highest_usable_frame_bound(regions.drop_last());
    }
}

/// Appending one region to a region sequence appends that region's frames to
/// the usable frames.
proof fn lemma_usable_frames_snoc(regions: Seq<MemoryRegion>, i: int)
    requires
        0 <= i < regions.len(),
    ensures
        usable_frames_of(regions.subrange(0, i + 1)) == usable_frames_of(regions.subrange(0, i))
            + regions[i].frames(),
{
    let prefix = regions.subrange(0, i);
    let single = seq![regions[i]];
    assert(regions.subrange(0, i + 1) =~= prefix + single);
    lemma_usable_frames_concat(prefix, single);
    assert(single.skip(1) =~= Seq::<MemoryRegion>::empty());
    assert(usable_frames_of(Seq::<MemoryRegion>::empty()) == Seq::<u64>::empty());
    assert(usable_frames_of(single) == single[0].frames() + usable_frames_of(single.skip(1)));
    assert(usable_frames_of(single) =~= regions[i].frames());
}

/// The usable frames of a concatenation are the concatenation of the usable
/// frames.
proof fn lemma_usable_frames_concat(a: Seq<MemoryRegion>, b: Seq<MemoryRegion>)
    ensures
        usable_frames_of(a + b) == usable_frames_of(a) + usable_frames_of(b),
    decreases a.len(),
{
    if a.len() == 0 {
        assert(a + b =~= b);
        assert(usable_frames_of(a) + usable_frames_of(b) =~= usable_frames_of(b));
    } else {
        lemma_usable_frames_concat(a.skip(1), b);
        assert((a + b).skip(1) =~= a.skip(1) + b);
        assert((a + b)[0] == a[0]);
        assert(usable_frames_of(a + b) =~= a[0].frames() + (usable_frames_of(a.skip(1))
            + usable_frames_of(b)));
        assert(a[0].frames() + (usable_frames_of(a.skip(1)) + usable_frames_of(b)) =~= (
        a[0].frames() + usable_frames_of(a.skip(1))) + usable_frames_of(b));
    }
}

} // verus!
