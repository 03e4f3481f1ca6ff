//! The boot sequence: segment setup, controller remap, and the assembled
//! kernel context.

use pms_rust_os::gdt;
use pms_rust_os::init;
use pms_rust_os::memory::{MemoryMap, MemoryRegion, MemoryRegionType};
use pms_rust_os::pic::ChainedPics;
use pms_rust_os::QemuExitCode;

/// The segment setup computes the canonical selectors and reserves the
/// five-page double-fault stack in interrupt-stack-table slot 0.
#[test]
fn gdt_selectors_and_double_fault_stack() {
    let stack_start = 0x4_0000;
    let ctx = gdt::init(stack_start);
    assert!(ctx.loaded);
    assert_eq!(ctx.selectors.code_selector, 8);
    assert_eq!(ctx.selectors.tss_selector, 16);
    assert_eq!(ctx.tss.interrupt_stack_table.len(), gdt::IST_ENTRIES);
    assert_eq!(
        ctx.tss.interrupt_stack_table[gdt::DOUBLE_FAULT_IST_INDEX as usize],
        stack_start + gdt::DOUBLE_FAULT_STACK_SIZE
    );
    for slot in 1..gdt::IST_ENTRIES {
        assert_eq!(ctx.tss.interrupt_stack_table[slot], 0);
    }
}

/// The controller pair owns exactly the two remapped vector ranges.
#[test]
fn pics_own_remapped_ranges() {
    let mut pics = ChainedPics::new(32, 40);
    pics.initialize();
    for vector in 32..48u8 {
        assert!(pics.handles_interrupt(vector));
        assert!(pics.is_deliverable(vector));
    }
    assert!(!pics.handles_interrupt(31));
    assert!(!pics.handles_interrupt(48));
    assert!(!pics.handles_interrupt(0));
    assert!(!pics.handles_interrupt(255));
}

/// Acknowledging a vector outside both controllers' ranges changes nothing.
#[test]
fn eoi_for_foreign_vector_is_ignored() {
    let mut pics = ChainedPics::new(32, 40);
    pics.initialize();
    pics.notify_end_of_interrupt(3);
    pics.notify_end_of_interrupt(200);
    assert!(pics.eoi_history().is_empty());
}

/// An uninitialized controller delivers nothing.
#[test]
fn uninitialized_pics_deliver_nothing() {
    let pics = ChainedPics::new(32, 40);
    assert!(!pics.is_deliverable(32));
}

/// The secondary controller's lines are acknowledged through the cascade:
/// the acknowledgment is recorded once and the line re-armed.
#[test]
fn secondary_line_acknowledged_once() {
    let mut pics = ChainedPics::new(32, 40);
    pics.initialize();
    pics.accept_interrupt(44);
    assert!(!pics.is_deliverable(44));
    pics.notify_end_of_interrupt(44);
    assert_eq!(pics.eoi_history(), &vec![44u8]);
    assert!(pics.is_deliverable(44));
}

/// The full boot sequence succeeds and leaves every subsystem ready.
#[test]
fn boot_sequence_assembles_kernel() {
    let mut map = MemoryMap::new();
    map.add_region(MemoryRegion {
        start_frame_number: 16,
        end_frame_number: 18,
        region_type: MemoryRegionType::Usable,
    });
    let mut kernel = init(0x4_0000, 0, map).unwrap();

    assert!(kernel.gdt.loaded);
    assert_eq!(kernel.gdt.selectors.code_selector, 8);
    assert_eq!(kernel.gdt.selectors.tss_selector, 16);
    assert!(kernel.interrupts_enabled);
    assert!(kernel.pics.is_deliverable(32));
    assert!(kernel.pics.is_deliverable(33));
    assert!(kernel.log.is_empty());
    assert!(kernel.keys.is_empty());

    assert_eq!(kernel.pmm.allocate_frame().unwrap().number, 16);
    assert_eq!(kernel.pmm.allocate_frame().unwrap().number, 17);
    assert!(kernel.pmm.allocate_frame().is_none());
}

/// The exit codes the hosting monitor understands.
#[test]
fn qemu_exit_codes() {
    assert_eq!(QemuExitCode::Success.code(), 0x10);
    assert_eq!(QemuExitCode::Failed.code(), 0x11);
}

/// A trivial check mirroring the embedded harness's own smoke test.
#[test]
fn simpler_test() {
    assert_eq!(1, 1);
}
