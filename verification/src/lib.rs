//! Boot-time services of a small x86-64 kernel, modelled and verified: CPU
//! fault isolation, hardware interrupt dispatch, and bootstrap physical-memory
//! accounting.
//!
//! The privileged boundary (descriptor-table loads, port reads and writes) is
//! left to the embedding layer; this crate holds the logic above that boundary:
//! which tables are built, in which order they must be installed, how hardware
//! interrupts are acknowledged, and which physical frames are handed out.

pub mod gdt;
pub mod interrupt;
pub mod keyboard;
pub mod memory;
pub mod pic;
pub mod port;
pub mod uart_16550;
pub mod vga_buffer;
pub mod vga_text;

use vstd::prelude::*;

use crate::gdt::GdtContext;
use crate::interrupt::{
    idt_installed, init_idt, InitError, InterruptDescriptorTable, LogEvent, PIC_1_OFFSET,
    PIC_2_OFFSET,
};
use crate::keyboard::{keyboard_new, KeyOutput, KeyboardState};
use crate::memory::physical::PhysicalMemoryManager;
use crate::memory::MemoryMap;
use crate::pic::ChainedPics;

verus! {

/// The size in bytes of one physical frame handed out by the bootstrap
/// allocator.
pub const FRAME_SIZE: u64 = 4096;

/// Status codes a hosting virtual-machine monitor understands, written to a
/// fixed port to signal automated-test completion; absent on real hardware.
#[derive(Clone, Copy, PartialEq, Eq, Structural, Debug)]
pub enum QemuExitCode {
    /// The run completed as expected.
    Success,
    /// The run failed.
    Failed,
}

impl QemuExitCode {
    /// The code's value on the wire.
    pub open spec fn spec_code(self) -> u32 {
        match self {
            QemuExitCode::Success => 0x10,
            QemuExitCode::Failed => 0x11,
        }
    }

    /// The code's value on the wire, for the embedding layer to write to the
    /// exit port.
    pub fn code(self) -> (r: u32)
        ensures
            r == self.spec_code(),
    {
        match self {
            QemuExitCode::Success => 0x10,
            QemuExitCode::Failed => 0x11,
        }
    }
}

/// The kernel's boot context: every once-constructed singleton of the boot
/// sequence, owned explicitly and threaded through later calls rather than
/// held in implicit lazily constructed globals.
pub struct Kernel {
    /// The segment and task-state setup.
    pub gdt: GdtContext,
    /// The interrupt dispatch table.
    pub idt: InterruptDescriptorTable,
    /// The interrupt controller pair.
    pub pics: ChainedPics,
    /// Whether hardware interrupts are unmasked; the embedding layer
    /// executes the actual enable instruction.
    pub interrupts_enabled: bool,
    /// The bootstrap frame allocator.
    pub pmm: PhysicalMemoryManager,
    /// The scancode decoder's state.
    pub keyboard: KeyboardState,
    /// The diagnostic log the fault handlers append to.
    pub log: Vec<LogEvent>,
    /// The decoded keys the keyboard handler emits.
    pub keys: Vec<KeyOutput>,
}

impl Kernel {
    /// Everything the boot sequence promised: the task-state setup is live,
    /// the dispatch table fully installed, the controllers remapped to the
    /// offsets this kernel routes, and the allocator well formed.
    pub open spec fn wf(self) -> bool {
        &&& self.gdt.tss_ready_for_double_fault()
        &&& idt_installed(self.idt)
        &&& self.pics.wf()
        &&& self.pics.initialized()
        &&& self.pics.offset1() == PIC_1_OFFSET
        &&& self.pics.offset2() == PIC_2_OFFSET
        &&& self.pmm.wf()
    }
}

/// Initializes the processor environment in the mandated order: segment and
/// task-state setup first, then the interrupt dispatch table, then the
/// controller remap, then interrupts on, then memory management. The order
/// matters: [`init_idt`] refuses a context whose Task State Segment is not
/// live, and under this sequence that cannot happen, so the result is always
/// the ready kernel context.
pub fn init(
    double_fault_stack_start: u64,
    physical_memory_offset: u64,
    memory_map: MemoryMap,
) -> (r: Result<Kernel, InitError>)
    requires
        0 < double_fault_stack_start,
        double_fault_stack_start + crate::gdt::DOUBLE_FAULT_STACK_SIZE <= u64::MAX,
        memory_map.wf(),
    ensures
        match r {
            Ok(kernel) => {
                &&& kernel.wf()
                &&& kernel.interrupts_enabled
                &&& kernel.pmm.initialized()
                &&& kernel.pmm.map() == memory_map
                &&& kernel.pmm.allocated() == 0
                &&& kernel.pics.eoi_log() == Seq::<u8>::empty()
                &&& kernel.log@ == Seq::<LogEvent>::empty()
                &&& kernel.keys@ == Seq::<KeyOutput>::empty()
            },
            Err(_) => false,
        },
{
    let gdt = crate::gdt::init(double_fault_stack_start);
    let idt = match init_idt(&gdt) {
        Ok(table) => table,
        Err(e) => {
            return Err(e);  // unreachable: the setup above leaves the context ready
        },
    };
    let mut pics = ChainedPics::new(PIC_1_OFFSET, PIC_2_OFFSET);
    pics.initialize();
    let mut pmm = PhysicalMemoryManager::new();
    pmm.init(physical_memory_offset, memory_map);
    Ok(
        Kernel {
            gdt,
            idt,
            pics,
            interrupts_enabled: true,
            pmm,
            keyboard: keyboard_new(),
            log: Vec::new(),
            keys: Vec::new(),
        },
    )
}

} // verus!
