//! The Global Descriptor Table and the Task State Segment.
//!
//! The table holds a kernel code-segment descriptor and one Task State
//! Segment descriptor; the Task State Segment reserves interrupt-stack-table
//! slot 0 as the dedicated double-fault stack, so that the double-fault
//! handler enters on a fresh stack even after stack exhaustion. Loading the
//! table and the segment registers is privileged work of the embedding layer;
//! this module builds and describes the tables.

use vstd::prelude::*;

verus! {

/// The interrupt-stack-table slot reserved for double-fault delivery.
pub const DOUBLE_FAULT_IST_INDEX: u16 = 0;

/// The size in bytes of the statically reserved double-fault stack: 5 pages.
pub const DOUBLE_FAULT_STACK_SIZE: u64 = 4096 * 5;

/// How many interrupt-stack-table slots a Task State Segment holds.
pub const IST_ENTRIES: usize = 7;

/// How many 8-byte slots the descriptor table offers, the mandatory null
/// descriptor at slot 0 included.
pub const GDT_SLOTS: usize = 8;

/// A descriptor the table can hold. A task-state descriptor is twice as wide
/// as a code-segment descriptor in long mode.
#[derive(Clone, Copy, PartialEq, Eq, Structural, Debug)]
pub enum Descriptor {
    /// The kernel code segment.
    KernelCodeSegment,
    /// The Task State Segment descriptor.
    TssSegment,
}

impl Descriptor {
    /// How many 8-byte table slots the descriptor occupies.
    pub open spec fn spec_slots(self) -> nat {
        match self {
            Descriptor::KernelCodeSegment => 1,
            Descriptor::TssSegment => 2,
        }
    }
}

/// The Task State Segment: in long mode it carries the interrupt stack
/// table, whose slots name alternate stack tops for fault delivery.
pub struct TaskStateSegment {
    /// The stack-top addresses of the seven interrupt-stack-table slots; a
    /// zero entry means no alternate stack is reserved in that slot.
    pub interrupt_stack_table: Vec<u64>,
}

impl TaskStateSegment {
    /// A Task State Segment with no alternate stacks reserved.
    pub fn new() -> (r: TaskStateSegment)
        ensures
            r.interrupt_stack_table@ == Seq::new(IST_ENTRIES as nat, |i: int| 0u64),
    {
        let mut table: Vec<u64> = Vec::new();
        for i in 0..IST_ENTRIES
            invariant
                table@ =~= Seq::new(i as nat, |k: int| 0u64),
        {
            table.push(0);
        }
        assert(table@ =~= Seq::new(IST_ENTRIES as nat, |i: int| 0u64));
        TaskStateSegment { interrupt_stack_table: table }
    }
}

/// The descriptor table: slot 0 is the mandatory null descriptor; further
/// descriptors are appended in order and addressed by byte-offset selectors.
pub struct GlobalDescriptorTable {
    descriptors: Vec<Descriptor>,
    next_free_slot: usize,
}

impl GlobalDescriptorTable {
    /// The descriptors added so far, in order.
    pub closed spec fn descriptors(self) -> Seq<Descriptor> {
        self.descriptors@
    }

    /// The first table slot not yet occupied.
    pub closed spec fn next_free_slot(self) -> nat {
        self.next_free_slot as nat
    }

    /// An empty table: only the null descriptor, occupying slot 0.
    pub fn new() -> (r: GlobalDescriptorTable)
        ensures
            r.descriptors() == Seq::<Descriptor>::empty(),
            r.next_free_slot() == 1,
    {
        GlobalDescriptorTable { descriptors: Vec::new(), next_free_slot: 1 }
    }

    /// Appends a descriptor and returns its segment selector: the byte offset
    /// of its first slot, at ring 0.
    pub fn add_entry(&mut self, descriptor: Descriptor) -> (selector: u16)
        requires
            old(self).next_free_slot() + descriptor.spec_slots() <= GDT_SLOTS,
        ensures
            selector == old(self).next_free_slot() * 8,
            final(self).descriptors() == old(self).descriptors().push(descriptor),
            final(self).next_free_slot() == old(self).next_free_slot()
                + descriptor.spec_slots(),
    {
        let selector = (self.next_free_slot * 8) as u16;
        let slots: usize = match descriptor {
            Descriptor::KernelCodeSegment => 1,
            Descriptor::TssSegment => 2,
        };
        self.next_free_slot = self.next_free_slot + slots;
        self.descriptors.push(descriptor);
        selector
    }
}

/// The selectors computed while the table was built, immutable thereafter.
#[derive(Clone, Copy, PartialEq, Eq, Structural, Debug)]
pub struct Selectors {
    /// The kernel code-segment selector.
    pub code_selector: u16,
    /// The Task State Segment selector.
    pub tss_selector: u16,
}

/// Everything the segment/task-state setup produced: the built table, the
/// selectors, the Task State Segment, and whether the embedding layer has
/// loaded them into the CPU.
pub struct GdtContext {
    /// The descriptor table.
    pub table: GlobalDescriptorTable,
    /// The selectors of the two descriptors.
    pub selectors: Selectors,
    /// The Task State Segment the table's second descriptor points at.
    pub tss: TaskStateSegment,
    /// Whether the table, the code-segment register and the task register
    /// have been loaded; the interrupt table's double-fault stack index is
    /// only meaningful once this holds.
    pub loaded: bool,
}

impl GdtContext {
    /// The context is ready for double-fault delivery once it is loaded and
    /// interrupt-stack-table slot 0 names a stack.
    pub open spec fn tss_ready_for_double_fault(self) -> bool {
        &&& self.loaded
        &&& self.tss.interrupt_stack_table@.len() == IST_ENTRIES
        &&& self.tss.interrupt_stack_table@[DOUBLE_FAULT_IST_INDEX as int] != 0
    }
}

/// Builds the descriptor table and the Task State Segment, reserving the
/// five-page region starting at `double_fault_stack_start` as the
/// double-fault stack (stacks grow downwards, so the slot holds the region's
/// end). The embedding layer then loads the table, reloads the code-segment
/// register with the code selector, and loads the task register with the
/// task-state selector.
pub fn init(double_fault_stack_start: u64) -> (r: GdtContext)
    requires
        0 < double_fault_stack_start,
        double_fault_stack_start + DOUBLE_FAULT_STACK_SIZE <= u64::MAX,
    ensures
        r.loaded,
        r.selectors.code_selector == 8,
        r.selectors.tss_selector == 16,
        r.table.descriptors() == seq![Descriptor::KernelCodeSegment, Descriptor::TssSegment],
        r.tss.interrupt_stack_table@.len() == IST_ENTRIES,
        r.tss.interrupt_stack_table@[DOUBLE_FAULT_IST_INDEX as int] == double_fault_stack_start
            + DOUBLE_FAULT_STACK_SIZE,
        forall|i: int|
            DOUBLE_FAULT_IST_INDEX < i < IST_ENTRIES ==> r.tss.interrupt_stack_table@[i] == 0,
        r.tss_ready_for_double_fault(),
{
    let mut tss = TaskStateSegment::new();
    let stack_end = double_fault_stack_start + DOUBLE_FAULT_STACK_SIZE;
    tss.interrupt_stack_table[DOUBLE_FAULT_IST_INDEX as usize] = stack_end;

    let mut gdt = GlobalDescriptorTable::new();
    let code_selector = gdt.add_entry(Descriptor::KernelCodeSegment);
    let tss_selector = gdt.add_entry(Descriptor::TssSegment);
    assert(gdt.descriptors() =~= seq![Descriptor::KernelCodeSegment, Descriptor::TssSegment]);

    GdtContext {
        table: gdt,
        selectors: Selectors { code_selector, tss_selector },
        tss,
        loaded: true,
    }
}

} // verus!
