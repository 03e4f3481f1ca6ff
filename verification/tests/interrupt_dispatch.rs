//! The dispatch table, the vector handlers and the acknowledge protocol.

use pms_rust_os::gdt::{self, GlobalDescriptorTable, Selectors, TaskStateSegment};
use pms_rust_os::interrupt::{
    breakpoint_handler, double_fault_handler, init_idt, keyboard_interrupt_handler,
    timer_interrupt_handler, HandlerKind, HandlerOutcome, InitError, InterruptIndex,
    InterruptStackFrame, LogEvent, BREAKPOINT_VECTOR, DOUBLE_FAULT_VECTOR, PIC_1_OFFSET,
    PIC_2_OFFSET,
};
use pms_rust_os::keyboard::{keyboard_new, KeyOutput};
use pms_rust_os::pic::ChainedPics;

fn frame() -> InterruptStackFrame {
    InterruptStackFrame {
        instruction_pointer: 0x1000,
        code_segment: 8,
        cpu_flags: 0x202,
        stack_pointer: 0x2000,
        stack_segment: 0,
    }
}

fn remapped_pics() -> ChainedPics {
    let mut pics = ChainedPics::new(PIC_1_OFFSET, PIC_2_OFFSET);
    pics.initialize();
    pics
}

/// The two hardware lines sit at the remapped base.
#[test]
fn interrupt_index_vectors() {
    assert_eq!(InterruptIndex::Timer.as_u8(), 32);
    assert_eq!(InterruptIndex::Keyboard.as_u8(), 33);
    assert_eq!(InterruptIndex::Timer.as_usize(), 32);
    assert_eq!(InterruptIndex::Keyboard.as_usize(), 33);
    assert_eq!(PIC_1_OFFSET, 32);
    assert_eq!(PIC_2_OFFSET, 40);
}

/// A table built from a live context routes the four vectors and nothing
/// else.
#[test]
fn installed_table_routes_four_vectors() {
    let gdt = gdt::init(0x10000);
    let idt = init_idt(&gdt).unwrap();
    assert_eq!(idt.entry(BREAKPOINT_VECTOR).handler, Some(HandlerKind::Breakpoint));
    assert_eq!(idt.entry(BREAKPOINT_VECTOR).stack_index, None);
    assert_eq!(idt.entry(DOUBLE_FAULT_VECTOR).handler, Some(HandlerKind::DoubleFault));
    assert_eq!(idt.entry(DOUBLE_FAULT_VECTOR).stack_index, Some(gdt::DOUBLE_FAULT_IST_INDEX));
    assert_eq!(idt.entry(32).handler, Some(HandlerKind::Timer));
    assert_eq!(idt.entry(33).handler, Some(HandlerKind::Keyboard));
    for vector in [0usize, 1, 2, 4, 7, 9, 31, 34, 128, 255] {
        assert_eq!(idt.entry(vector).handler, None);
        assert_eq!(idt.entry(vector).stack_index, None);
    }
}

/// Installing the dispatch table before the task-state setup has loaded is
/// detected, not silently accepted.
#[test]
fn idt_before_tss_load_is_detected() {
    let unloaded = gdt::GdtContext {
        table: GlobalDescriptorTable::new(),
        selectors: Selectors { code_selector: 0, tss_selector: 0 },
        tss: TaskStateSegment::new(),
        loaded: false,
    };
    match init_idt(&unloaded) {
        Err(e) => assert_eq!(e, InitError::TaskStateSegmentNotLoaded),
        Ok(_) => panic!("an unloaded context must be refused"),
    }
}

/// A loaded context without a double-fault stack in slot 0 is refused too.
#[test]
fn idt_without_double_fault_stack_is_detected() {
    let no_stack = gdt::GdtContext {
        table: GlobalDescriptorTable::new(),
        selectors: Selectors { code_selector: 8, tss_selector: 16 },
        tss: TaskStateSegment::new(),
        loaded: true,
    };
    match init_idt(&no_stack) {
        Err(e) => assert_eq!(e, InitError::DoubleFaultStackMissing),
        Ok(_) => panic!("a context without the double-fault stack must be refused"),
    }
}

/// A breakpoint is logged and the faulting code resumes; the core does not
/// halt.
#[test]
fn test_breakpoint_exception() {
    let mut log: Vec<LogEvent> = Vec::new();
    let outcome = breakpoint_handler(&mut log, frame());
    assert_eq!(outcome, HandlerOutcome::Resume);
    assert_eq!(log.len(), 1);
    assert_eq!(log[0], LogEvent::BreakpointHit { stack_frame: frame() });
}

/// A double fault is logged and the core halts permanently.
#[test]
fn double_fault_halts() {
    let mut log: Vec<LogEvent> = Vec::new();
    let outcome = double_fault_handler(&mut log, frame(), 0);
    assert_eq!(outcome, HandlerOutcome::Halt);
    assert_eq!(log.len(), 1);
    assert_eq!(log[0], LogEvent::DoubleFault { stack_frame: frame(), error_code: 0 });
}

/// The timer handler acknowledges its line exactly once, and the line is
/// deliverable again afterwards.
#[test]
fn timer_handler_acknowledges_once() {
    let mut pics = remapped_pics();
    pics.accept_interrupt(InterruptIndex::Timer.as_u8());
    assert!(!pics.is_deliverable(InterruptIndex::Timer.as_u8()));
    let outcome = timer_interrupt_handler(&mut pics);
    assert_eq!(outcome, HandlerOutcome::Resume);
    assert_eq!(pics.eoi_history(), &vec![32u8]);
    assert!(pics.is_deliverable(InterruptIndex::Timer.as_u8()));

    // the line is deliverable again: a second interrupt goes through
    pics.accept_interrupt(InterruptIndex::Timer.as_u8());
    timer_interrupt_handler(&mut pics);
    assert_eq!(pics.eoi_history(), &vec![32u8, 32u8]);
}

/// The keyboard handler decodes a make code for the first letter row into
/// its character, emits it, and acknowledges its line exactly once.
#[test]
fn keyboard_handler_decodes_and_acknowledges() {
    let mut keyboard = keyboard_new();
    let mut keys: Vec<KeyOutput> = Vec::new();
    let mut pics = remapped_pics();
    pics.accept_interrupt(InterruptIndex::Keyboard.as_u8());

    // scancode set 1: 0x1E is the press of the key that types 'a'
    let outcome = keyboard_interrupt_handler(&mut keyboard, &mut keys, &mut pics, 0x1e);
    assert_eq!(outcome, HandlerOutcome::Resume);
    assert_eq!(pics.eoi_history(), &vec![33u8]);
    assert!(pics.is_deliverable(InterruptIndex::Keyboard.as_u8()));
    assert_eq!(keys.len(), 1);
    match &keys[0] {
        KeyOutput::Unicode(character) => assert_eq!(*character, 'a'),
        KeyOutput::RawKey(_) => panic!("expected a character"),
    }
}

/// A scancode that completes no key event emits nothing, but the line is
/// still acknowledged exactly once.
#[test]
fn keyboard_handler_acknowledges_without_output() {
    let mut keyboard = keyboard_new();
    let mut keys: Vec<KeyOutput> = Vec::new();
    let mut pics = remapped_pics();
    pics.accept_interrupt(InterruptIndex::Keyboard.as_u8());

    // scancode set 1: 0x9E is the release of the same key; releases decode
    // to no output under this layout
    let outcome = keyboard_interrupt_handler(&mut keyboard, &mut keys, &mut pics, 0x9e);
    assert_eq!(outcome, HandlerOutcome::Resume);
    assert_eq!(keys.len(), 0);
    assert_eq!(pics.eoi_history(), &vec![33u8]);
}
