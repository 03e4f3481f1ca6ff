//! The legacy dual interrupt controller driver, as a verified model of its
//! protocol.
//!
//! Two chained controllers of eight lines each multiplex hardware interrupts
//! onto the CPU; the secondary is cascaded through line 2 of the primary.
//! `initialize` remaps their vector bases away from the CPU's reserved
//! exception range, and `notify_end_of_interrupt` re-arms a serviced line.
//! The port writes that carry these commands to the hardware are issued by
//! the embedding layer; this model tracks which vectors the controllers own,
//! which lines are awaiting acknowledgment, and the exact sequence of
//! acknowledgments, so the handlers' obligation — end of interrupt exactly
//! once per handled interrupt — is stated and checked here.

use vstd::prelude::*;

verus! {

/// How many interrupt lines each of the two controllers offers.
pub const LINES_PER_PIC: u8 = 8;

/// The chained pair of controllers.
pub struct ChainedPics {
    /// The vector number of the primary controller's first line.
    offset1: u8,
    /// The vector number of the secondary controller's first line.
    offset2: u8,
    /// Whether the remap/initialization command sequence has been issued.
    initialized: bool,
    /// One flag per line (primary lines first), set while an accepted
    /// interrupt on that line awaits its end-of-interrupt.
    in_service: Vec<bool>,
    /// Every vector acknowledged so far, in order of acknowledgment.
    eoi_log: Vec<u8>,
}

impl ChainedPics {
    /// The vector base of the primary controller.
    pub closed spec fn offset1(self) -> u8 {
        self.offset1
    }

    /// The vector base of the secondary controller.
    pub closed spec fn offset2(self) -> u8 {
        self.offset2
    }

    /// Whether `initialize` has run.
    pub closed spec fn initialized(self) -> bool {
        self.initialized
    }

    /// The per-line in-service flags, primary lines first.
    pub closed spec fn in_service(self) -> Seq<bool> {
        self.in_service@
    }

    /// The vectors acknowledged so far, in order.
    pub closed spec fn eoi_log(self) -> Seq<u8> {
        self.eoi_log@
    }

    /// The pair is well formed: one in-service flag per line, and the two
    /// vector ranges disjoint.
    pub open spec fn wf(self) -> bool {
        &&& self.in_service().len() == 2 * LINES_PER_PIC
        &&& self.offset1() + LINES_PER_PIC <= 256
        &&& self.offset2() + LINES_PER_PIC <= 256
        &&& (self.offset1() + LINES_PER_PIC <= self.offset2() || self.offset2() + LINES_PER_PIC
            <= self.offset1())
    }

    /// Whether `vector` belongs to one of the two controllers.
    pub open spec fn spec_handles_interrupt(self, vector: u8) -> bool {
        ||| self.offset1() <= vector < self.offset1() + LINES_PER_PIC
        ||| self.offset2() <= vector < self.offset2() + LINES_PER_PIC
    }

    /// The in-service flag index of `vector`: primary lines occupy 0..8,
    /// secondary lines 8..16.
    pub open spec fn spec_line_index(self, vector: u8) -> int
        recommends
            self.spec_handles_interrupt(vector),
    {
        if self.offset1() <= vector < self.offset1() + LINES_PER_PIC {
            vector - self.offset1()
        } else {
            LINES_PER_PIC + vector - self.offset2()
        }
    }

    /// A vector is deliverable when the controllers are initialized, own it,
    /// and its line is not awaiting an acknowledgment.
    pub open spec fn deliverable(self, vector: u8) -> bool {
        &&& self.initialized()
        &&& self.spec_handles_interrupt(vector)
        &&& !self.in_service()[self.spec_line_index(vector)]
    }

    /// A chained pair with the given vector bases, not yet initialized. The
    /// bases must leave room for eight lines each and must not overlap.
    pub fn new(offset1: u8, offset2: u8) -> (r: ChainedPics)
        requires
            offset1 + LINES_PER_PIC <= 256,
            offset2 + LINES_PER_PIC <= 256,
            offset1 + LINES_PER_PIC <= offset2 || offset2 + LINES_PER_PIC <= offset1,
        ensures
            r.wf(),
            r.offset1() == offset1,
            r.offset2() == offset2,
            !r.initialized(),
            r.in_service() == Seq::new((2 * LINES_PER_PIC) as nat, |i: int| false),
            r.eoi_log() == Seq::<u8>::empty(),
    {
        let mut in_service: Vec<bool> = Vec::new();
        let lines = 2 * (LINES_PER_PIC as usize);
        for i in 0..lines
            invariant
                in_service@ =~= Seq::new(i as nat, |k: int| false),
        {
            in_service.push(false);
        }
        assert(in_service@ =~= Seq::new((2 * LINES_PER_PIC) as nat, |i: int| false));
        ChainedPics { offset1, offset2, initialized: false, in_service, eoi_log: Vec::new() }
    }

    /// Issues the remap sequence: both controllers take their configured
    /// vector bases, the cascade wiring is preserved, and no line is left
    /// awaiting an acknowledgment.
    pub fn initialize(&mut self)
        requires
            old(self).wf(),
        ensures
            final(self).wf(),
            final(self).initialized(),
            final(self).offset1() == old(self).offset1(),
            final(self).offset2() == old(self).offset2(),
            final(self).in_service() == Seq::new((2 * LINES_PER_PIC) as nat, |i: int| false),
            final(self).eoi_log() == old(self).eoi_log(),
    {
        self.initialized = true;
        let mut in_service: Vec<bool> = Vec::new();
        let lines = 2 * (LINES_PER_PIC as usize);
        for i in 0..lines
            invariant
                in_service@ =~= Seq::new(i as nat, |k: int| false),
        {
            in_service.push(false);
        }
        assert(in_service@ =~= Seq::new((2 * LINES_PER_PIC) as nat, |i: int| false));
        self.in_service = in_service;
    }

    /// Whether `vector` belongs to one of the two controllers.
    pub fn handles_interrupt(&self, vector: u8) -> (r: bool)
        requires
            self.wf(),
        ensures
            r == self.spec_handles_interrupt(vector),
    {
        let v = vector as u16;
        (self.offset1 <= vector && v < (self.offset1 as u16) + (LINES_PER_PIC as u16)) || (
        self.offset2 <= vector && v < (self.offset2 as u16) + (LINES_PER_PIC as u16))
    }

    /// Models the controller accepting delivery of an interrupt on the line
    /// of `vector`: the line is in service until acknowledged, and the
    /// hardware withholds further delivery on it meanwhile.
    pub fn accept_interrupt(&mut self, vector: u8)
        requires
            old(self).wf(),
            old(self).deliverable(vector),
        ensures
            final(self).wf(),
            final(self).initialized(),
            final(self).offset1() == old(self).offset1(),
            final(self).offset2() == old(self).offset2(),
            final(self).in_service() == old(self).in_service().update(
                old(self).spec_line_index(vector),
                true,
            ),
            final(self).eoi_log() == old(self).eoi_log(),
    {
        let index = self.line_index(vector);
        self.in_service[index] = true;
    }

    /// Signals end of interrupt for `vector`: its line is re-armed and the
    /// acknowledgment is recorded, exactly once. For a vector of the
    /// secondary controller the hardware command goes to both chips, so the
    /// cascade line is re-armed along with it. A vector outside both
    /// controllers' ranges leaves everything unchanged, as the command would
    /// be addressed to no chip.
    pub fn notify_end_of_interrupt(&mut self, vector: u8)
        requires
            old(self).wf(),
            old(self).initialized(),
        ensures
            final(self).wf(),
            final(self).initialized(),
            final(self).offset1() == old(self).offset1(),
            final(self).offset2() == old(self).offset2(),
            old(self).spec_handles_interrupt(vector) ==> {
                &&& final(self).in_service() == old(self).in_service().update(
                    old(self).spec_line_index(vector),
                    false,
                )
                &&& final(self).eoi_log() == old(self).eoi_log().push(vector)
                &&& final(self).deliverable(vector)
            },
            !old(self).spec_handles_interrupt(vector) ==> *final(self) == *old(self),
    {
        if self.handles_interrupt(vector) {
            let index = self.line_index(vector);
            self.in_service[index] = false;
            self.eoi_log.push(vector);
        }
    }

    /// The vectors acknowledged so far, in order of acknowledgment.
    pub fn eoi_history(&self) -> (r: &Vec<u8>)
        ensures
            r@ == self.eoi_log(),
    {
        &self.eoi_log
    }

    /// Whether an interrupt on the line of `vector` would be delivered now.
    pub fn is_deliverable(&self, vector: u8) -> (r: bool)
        requires
            self.wf(),
        ensures
            r == self.deliverable(vector),
    {
        if !self.initialized {
            return false;
        }
        if !self.handles_interrupt(vector) {
            return false;
        }
        let index = self.line_index(vector);
        !self.in_service[index]
    }

    /// The in-service flag index of `vector`.
    fn line_index(&self, vector: u8) -> (r: usize)
        requires
            self.wf(),
            self.spec_handles_interrupt(vector),
        ensures
            r == self.spec_line_index(vector),
            r < 2 * LINES_PER_PIC,
    {
        if self.offset1 <= vector && (vector as u16) < (self.offset1 as u16) + (LINES_PER_PIC
            as u16) {
            (vector - self.offset1) as usize
        } else {
            (LINES_PER_PIC as usize) + ((vector - self.offset2) as usize)
        }
    }
}

} // verus!
