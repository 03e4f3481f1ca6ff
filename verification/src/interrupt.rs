//! The Interrupt Dispatch Table and the vector handlers.
//!
//! The table is built once at boot and is fixed afterwards: entries for the
//! breakpoint and double-fault exceptions and for the two remapped hardware
//! lines (timer, keyboard). Building it presupposes a live Task State
//! Segment, since the double-fault entry's stack index refers into it;
//! [`init_idt`] makes that ordering precondition checkable instead of letting
//! a wrong order silently "work". The handlers hold the logic the vectors
//! run: what is logged, what is emitted, whether execution resumes, and that
//! every hardware interrupt is acknowledged exactly once.

use vstd::prelude::*;

use crate::gdt::{GdtContext, DOUBLE_FAULT_IST_INDEX, IST_ENTRIES};
use crate::keyboard::{
    decoded_key_output, keyboard_add_byte, keyboard_process_keyevent, KeyOutput, KeyboardState,
};
use crate::pic::ChainedPics;

verus! {

/// The remapped vector base of the primary controller, just past the CPU's
/// reserved exception range 0..32.
pub const PIC_1_OFFSET: u8 = 32;

/// The remapped vector base of the secondary controller.
pub const PIC_2_OFFSET: u8 = PIC_1_OFFSET + 8;

/// How many vectors the dispatch table holds.
pub const IDT_ENTRIES: usize = 256;

/// The CPU exception vector of a software breakpoint.
pub const BREAKPOINT_VECTOR: usize = 3;

/// The CPU exception vector of a double fault.
pub const DOUBLE_FAULT_VECTOR: usize = 8;

/// The two remapped hardware lines this kernel services.
#[derive(Clone, Copy, PartialEq, Eq, Structural, Debug)]
pub enum InterruptIndex {
    /// The periodic timer, on the primary controller's first line.
    Timer,
    /// The keyboard, on the primary controller's second line.
    Keyboard,
}

impl InterruptIndex {
    /// The vector number of the line at the remapped base.
    pub open spec fn spec_as_u8(self) -> u8 {
        match self {
            InterruptIndex::Timer => PIC_1_OFFSET,
            InterruptIndex::Keyboard => (PIC_1_OFFSET + 1) as u8,
        }
    }

    /// The vector number of the line, as a byte.
    pub fn as_u8(self) -> (r: u8)
        ensures
            r == self.spec_as_u8(),
    {
        match self {
            InterruptIndex::Timer => PIC_1_OFFSET,
            InterruptIndex::Keyboard => PIC_1_OFFSET + 1,
        }
    }

    /// The vector number of the line, as a table index.
    pub fn as_usize(self) -> (r: usize)
        ensures
            r == self.spec_as_u8() as usize,
    {
        self.as_u8() as usize
    }
}

/// Which handler a dispatch-table entry routes to.
#[derive(Clone, Copy, PartialEq, Eq, Structural, Debug)]
pub enum HandlerKind {
    /// The breakpoint exception handler.
    Breakpoint,
    /// The double-fault handler.
    DoubleFault,
    /// The timer-line handler.
    Timer,
    /// The keyboard-line handler.
    Keyboard,
}

/// One vector's entry: the handler it routes to, if any, and the
/// interrupt-stack-table slot the CPU switches to on delivery, if any.
#[derive(Clone, Copy, PartialEq, Eq, Debug)]
pub struct IdtEntry {
    /// The handler the vector routes to; absent vectors are unhandled.
    pub handler: Option<HandlerKind>,
    /// The interrupt-stack-table slot to switch to, for handlers that need a
    /// known-good stack.
    pub stack_index: Option<u16>,
}

/// The dispatch table: one entry per vector, fixed once built — entries are
/// never mutated after install, trading runtime flexibility for immunity to
/// a racing mutator.
pub struct InterruptDescriptorTable {
    entries: Vec<IdtEntry>,
}

impl InterruptDescriptorTable {
    /// The entries, by vector number.
    pub closed spec fn entries(self) -> Seq<IdtEntry> {
        self.entries@
    }

    /// The table is well formed when it covers every vector.
    pub open spec fn wf(self) -> bool {
        self.entries().len() == IDT_ENTRIES
    }

    /// The entry of `vector`.
    pub fn entry(&self, vector: usize) -> (r: IdtEntry)
        requires
            self.wf(),
            vector < IDT_ENTRIES,
        ensures
            r == self.entries()[vector as int],
    {
        self.entries[vector]
    }
}

/// What a fully installed dispatch table holds: the breakpoint handler, the
/// double-fault handler on the dedicated stack of interrupt-stack-table slot
/// 0, the two remapped hardware lines, and nothing else.
pub open spec fn idt_installed(idt: InterruptDescriptorTable) -> bool {
    &&& idt.wf()
    &&& idt.entries()[BREAKPOINT_VECTOR as int] == (IdtEntry {
        handler: Some(HandlerKind::Breakpoint),
        stack_index: None,
    })
    &&& idt.entries()[DOUBLE_FAULT_VECTOR as int] == (IdtEntry {
        handler: Some(HandlerKind::DoubleFault),
        stack_index: Some(DOUBLE_FAULT_IST_INDEX),
    })
    &&& idt.entries()[InterruptIndex::Timer.spec_as_u8() as int] == (IdtEntry {
        handler: Some(HandlerKind::Timer),
        stack_index: None,
    })
    &&& idt.entries()[InterruptIndex::Keyboard.spec_as_u8() as int] == (IdtEntry {
        handler: Some(HandlerKind::Keyboard),
        stack_index: None,
    })
    &&& forall|v: int|
        0 <= v < IDT_ENTRIES && v != BREAKPOINT_VECTOR && v != DOUBLE_FAULT_VECTOR && v
            != InterruptIndex::Timer.spec_as_u8() as int && v
            != InterruptIndex::Keyboard.spec_as_u8() as int ==> idt.entries()[v] == (IdtEntry {
            handler: None,
            stack_index: None,
        })
}

/// Why the dispatch table could not be built.
#[derive(Clone, Copy, PartialEq, Eq, Structural, Debug)]
pub enum InitError {
    /// The Task State Segment has not been loaded; the double-fault entry's
    /// stack index would refer into a table the CPU is not using.
    TaskStateSegmentNotLoaded,
    /// The Task State Segment reserves no double-fault stack in slot 0.
    DoubleFaultStackMissing,
}

/// Builds the Interrupt Dispatch Table, with handlers for the breakpoint and
/// double-fault exceptions and the timer and keyboard lines. The segment
/// setup must have run first: the double-fault entry's stack index is only
/// meaningful once the Task State Segment is live, so a context that is not
/// ready yields an error rather than a table that silently misdelivers.
pub fn init_idt(gdt: &GdtContext) -> (r: Result<InterruptDescriptorTable, InitError>)
    ensures
        match r {
            Ok(idt) => gdt.tss_ready_for_double_fault() && idt_installed(idt),
            Err(e) => !gdt.tss_ready_for_double_fault() && e == (if !gdt.loaded {
                InitError::TaskStateSegmentNotLoaded
            } else {
                InitError::DoubleFaultStackMissing
            }),
        },
{
    if !gdt.loaded {
        return Err(InitError::TaskStateSegmentNotLoaded);
    }
    if gdt.tss.interrupt_stack_table.len() != IST_ENTRIES {
        return Err(InitError::DoubleFaultStackMissing);
    }
    if gdt.tss.interrupt_stack_table[DOUBLE_FAULT_IST_INDEX as usize] == 0 {
        return Err(InitError::DoubleFaultStackMissing);
    }

    let mut entries: Vec<IdtEntry> = Vec::new();
    for i in 0..IDT_ENTRIES
        invariant
            entries@.len() == i,
            forall|k: int|
                0 <= k < i ==> entries@[k] == (IdtEntry { handler: None, stack_index: None }),
    {
        entries.push(IdtEntry { handler: None, stack_index: None });
    }
    entries[BREAKPOINT_VECTOR] = IdtEntry {
        handler: Some(HandlerKind::Breakpoint),
        stack_index: None,
    };
    entries[DOUBLE_FAULT_VECTOR] = IdtEntry {
        handler: Some(HandlerKind::DoubleFault),
        stack_index: Some(DOUBLE_FAULT_IST_INDEX),
    };
    let timer = InterruptIndex::Timer.as_usize();
    entries[timer] = IdtEntry { handler: Some(HandlerKind::Timer), stack_index: None };
    let keyboard = InterruptIndex::Keyboard.as_usize();
    entries[keyboard] = IdtEntry { handler: Some(HandlerKind::Keyboard), stack_index: None };
    Ok(InterruptDescriptorTable { entries })
}

/// The interrupted context the CPU pushes when it vectors to a handler.
#[derive(Clone, Copy, PartialEq, Eq, Structural, Debug)]
pub struct InterruptStackFrame {
    /// The instruction the interrupted stream resumes at.
    pub instruction_pointer: u64,
    /// The interrupted code segment.
    pub code_segment: u64,
    /// The saved CPU flags.
    pub cpu_flags: u64,
    /// The interrupted stack pointer.
    pub stack_pointer: u64,
    /// The interrupted stack segment.
    pub stack_segment: u64,
}

/// A diagnostic record a fault handler appends to the output sink.
#[derive(Clone, Copy, PartialEq, Eq, Structural, Debug)]
pub enum LogEvent {
    /// A breakpoint exception was taken in the recorded context.
    BreakpointHit {
        /// The interrupted context.
        stack_frame: InterruptStackFrame,
    },
    /// A double fault was taken in the recorded context.
    DoubleFault {
        /// The interrupted context.
        stack_frame: InterruptStackFrame,
        /// The error code the CPU pushed; always zero for double faults.
        error_code: u64,
    },
}

/// What the core does once a handler returns.
#[derive(Clone, Copy, PartialEq, Eq, Structural, Debug)]
pub enum HandlerOutcome {
    /// The interrupted stream resumes exactly where it was suspended — for a
    /// breakpoint, at the instruction following the breakpoint.
    Resume,
    /// The core halts permanently.
    Halt,
}

/// Handler for breakpoint exceptions: logs the interrupted context and
/// resumes the faulting code. A breakpoint is expected during debugging and
/// never halts the core.
pub fn breakpoint_handler(log: &mut Vec<LogEvent>, stack_frame: InterruptStackFrame) -> (r:
    HandlerOutcome)
    ensures
        final(log)@ == old(log)@.push(LogEvent::BreakpointHit { stack_frame }),
        r == HandlerOutcome::Resume,
{
    log.push(LogEvent::BreakpointHit { stack_frame });
    HandlerOutcome::Resume
}

/// Handler for double faults: logs the interrupted context and halts
/// permanently. It is the sole deliberately non-returning path — continuing
/// past a corrupted privileged state risks silent corruption. Delivery runs
/// on the dedicated stack that interrupt-stack-table slot 0 reserves.
pub fn double_fault_handler(
    log: &mut Vec<LogEvent>,
    stack_frame: InterruptStackFrame,
    error_code: u64,
) -> (r: HandlerOutcome)
    ensures
        final(log)@ == old(log)@.push(LogEvent::DoubleFault { stack_frame, error_code }),
        r == HandlerOutcome::Halt,
{
    log.push(LogEvent::DoubleFault { stack_frame, error_code });
    HandlerOutcome::Halt
}

/// Handler for the timer line: acknowledges the controller exactly once and
/// resumes; the line is deliverable again afterwards. A scheduler tick will
/// hang off this handler later.
pub fn timer_interrupt_handler(pics: &mut ChainedPics) -> (r: HandlerOutcome)
    requires
        old(pics).wf(),
        old(pics).initialized(),
        old(pics).spec_handles_interrupt(InterruptIndex::Timer.spec_as_u8()),
    ensures
        final(pics).wf(),
        final(pics).initialized(),
        final(pics).offset1() == old(pics).offset1(),
        final(pics).offset2() == old(pics).offset2(),
        final(pics).eoi_log() == old(pics).eoi_log().push(InterruptIndex::Timer.spec_as_u8()),
        final(pics).in_service() == old(pics).in_service().update(
            old(pics).spec_line_index(InterruptIndex::Timer.spec_as_u8()),
            false,
        ),
        final(pics).deliverable(InterruptIndex::Timer.spec_as_u8()),
        r == HandlerOutcome::Resume,
{
    pics.notify_end_of_interrupt(InterruptIndex::Timer.as_u8());
    HandlerOutcome::Resume
}

/// Appends what the decoder produced for one scancode to the output sink:
/// the decoded key when there is one, nothing otherwise.
pub fn handle_decoded(keys: &mut Vec<KeyOutput>, decoded: Option<KeyOutput>)
    ensures
        match decoded {
            Some(key) => final(keys)@ == old(keys)@.push(key),
            None => final(keys)@ == old(keys)@,
        },
{
    match decoded {
        Some(key) => keys.push(key),
        None => (),
    }
}

/// Handler for the keyboard line: feeds one byte from the keyboard data port
/// to the stateful decoder, emits the decoded key to the output sink if the
/// byte completed one, and acknowledges the controller exactly once; the
/// line is deliverable again afterwards. The byte itself is read from port
/// 0x60 by the embedding layer.
pub fn keyboard_interrupt_handler(
    keyboard: &mut KeyboardState,
    keys: &mut Vec<KeyOutput>,
    pics: &mut ChainedPics,
    scancode: u8,
) -> (r: HandlerOutcome)
    requires
        old(pics).wf(),
        old(pics).initialized(),
        old(pics).spec_handles_interrupt(InterruptIndex::Keyboard.spec_as_u8()),
    ensures
        final(pics).wf(),
        final(pics).initialized(),
        final(pics).offset1() == old(pics).offset1(),
        final(pics).offset2() == old(pics).offset2(),
        final(pics).eoi_log() == old(pics).eoi_log().push(InterruptIndex::Keyboard.spec_as_u8()),
        final(pics).in_service() == old(pics).in_service().update(
            old(pics).spec_line_index(InterruptIndex::Keyboard.spec_as_u8()),
            false,
        ),
        final(pics).deliverable(InterruptIndex::Keyboard.spec_as_u8()),
        final(keys)@ == old(keys)@ || (exists|key: KeyOutput|
            final(keys)@ == old(keys)@.push(key)),
        r == HandlerOutcome::Resume,
{
    let decoded: Option<KeyOutput> = match keyboard_add_byte(keyboard, scancode) {
        Some(event) => match keyboard_process_keyevent(keyboard, event) {
            Some(key) => Some(decoded_key_output(key)),
            None => None,
        },
        None => None,
    };
    let ghost decoded_snapshot = decoded;
    handle_decoded(keys, decoded);
    proof {
        if decoded_snapshot is Some {
            assert(keys@ == old(keys)@.push(decoded_snapshot->Some_0));
        }
    }
    pics.notify_end_of_interrupt(InterruptIndex::Keyboard.as_u8());
    HandlerOutcome::Resume
}

} // verus!
