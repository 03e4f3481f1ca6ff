//! The firmware-supplied memory map and the physical frames it describes.
//!
//! The map is handed over once at boot as an ordered sequence of typed
//! regions; it is the sole source of truth for which physical memory the
//! bootstrap allocator may hand out.

pub mod physical;

use vstd::prelude::*;

verus! {

/// The highest frame number a region may name: every frame start address
/// `number * 4096` must fit in a 64-bit physical address.
pub const MAX_FRAME_NUMBER: u64 = 0xF_FFFF_FFFF_FFFF;

/// The class of a physical memory region, as the firmware reports it. The
/// allocator hands out frames only from `Usable` regions.
#[derive(Clone, Copy, PartialEq, Eq, Structural, Debug)]
pub enum MemoryRegionType {
    /// Free memory the kernel may allocate from.
    Usable,
    /// Memory already in use when the map was produced.
    InUse,
    /// Memory reserved by the firmware or by devices.
    Reserved,
    /// ACPI tables; reclaimable once they have been parsed.
    AcpiReclaimable,
    /// ACPI non-volatile storage.
    AcpiNvs,
    /// Memory reported as defective.
    BadMemory,
    /// Memory holding the kernel image.
    Kernel,
    /// Memory holding the kernel stack.
    KernelStack,
    /// Memory holding boot-time page tables.
    PageTable,
    /// Memory used by the boot loader itself.
    Bootloader,
    /// The zero frame, kept out of use.
    FrameZero,
    /// An empty placeholder entry.
    Empty,
    /// Memory holding the boot information structure.
    BootInfo,
    /// Memory holding a package passed along at boot.
    Package,
}

/// One region of the memory map: the frame numbers `start_frame_number`
/// up to but excluding `end_frame_number`, all of one type.
#[derive(Clone, Copy, PartialEq, Eq, Structural, Debug)]
pub struct MemoryRegion {
    /// The first frame number of the region.
    pub start_frame_number: u64,
    /// One past the last frame number of the region.
    pub end_frame_number: u64,
    /// The class of the region.
    pub region_type: MemoryRegionType,
}

impl MemoryRegion {
    /// A region is well formed when it is non-inverted and its frames all
    /// have addresses that fit in 64 bits.
    pub open spec fn wf(self) -> bool {
        &&& self.start_frame_number <= self.end_frame_number
        &&& self.end_frame_number <= MAX_FRAME_NUMBER
    }

    /// The frames this region contributes to the allocator: its whole frame
    /// range when it is usable, nothing otherwise.
    pub open spec fn frames(self) -> Seq<u64> {
        if self.region_type == MemoryRegionType::Usable {
            Seq::new(
                (self.end_frame_number - self.start_frame_number) as nat,
                |i: int| (self.start_frame_number + i) as u64,
            )
        } else {
            Seq::empty()
        }
    }
}

/// An ordered sequence of regions is well formed when every region is well
/// formed and consecutive regions do not overlap and keep ascending order.
pub open spec fn regions_wf(regions: Seq<MemoryRegion>) -> bool {
    &&& forall|i: int| 0 <= i < regions.len() ==> (#[trigger] regions[i]).wf()
    &&& forall|i: int|
        0 <= i && i + 1 < regions.len() ==> (#[trigger] regions[i]).end_frame_number
            <= regions[i + 1].start_frame_number
}

/// The ascending sequence of all usable frame numbers described by `regions`:
/// the concatenation of the frame ranges of its `Usable` regions.
pub open spec fn usable_frames_of(regions: Seq<MemoryRegion>) -> Seq<u64>
    decreases regions.len(),
{
    if regions.len() == 0 {
        Seq::empty()
    } else {
        regions[0].frames() + usable_frames_of(regions.skip(1))
    }
}

/// The memory map: the ordered regions the firmware reported, immutable once
/// handed to the allocator.
pub struct MemoryMap {
    regions: Vec<MemoryRegion>,
}

impl View for MemoryMap {
    type V = Seq<MemoryRegion>;

    closed spec fn view(&self) -> Seq<MemoryRegion> {
        self.regions@
    }
}

impl MemoryMap {
    /// The map is well formed when its region sequence is.
    pub open spec fn wf(self) -> bool {
        regions_wf(self@)
    }

    /// An empty memory map.
    pub fn new() -> (r: MemoryMap)
        ensures
            r@ == Seq::<MemoryRegion>::empty(),
            r.wf(),
    {
        MemoryMap { regions: Vec::new() }
    }

    /// Appends a region. Regions must be added in ascending order and must
    /// not overlap, which keeps the map well formed.
    pub fn add_region(&mut self, region: MemoryRegion)
        requires
            old(self).wf(),
            region.wf(),
            old(self)@.len() > 0 ==> old(self)@.last().end_frame_number
                <= region.start_frame_number,
        ensures
            final(self)@ == old(self)@.push(region),
            final(self).wf(),
    {
        self.regions.push(region);
    }

    /// The regions of the map, in the order the firmware reported them.
    pub fn regions(&self) -> (r: &Vec<MemoryRegion>)
        ensures
            r@ == self@,
    {
        &self.regions
    }
}

} // verus!
