//! The serial transmitter's register protocol.
//!
//! The device is programmed through a block of six ports at a base address:
//! a fixed initialization sequence sets the baud rate, the frame format and
//! the FIFOs, then a loopback probe checks the chip answers before it is put
//! into normal operation. This module computes the exact sequence and
//! interprets the line-status bits; the port reads and writes themselves are
//! issued by the embedding layer.

use vstd::prelude::*;
use vstd::string::StringSliceAdditionalSpecFns;

use crate::port::PortWrite;

verus! {

/// The serial device, identified by the address of its first register.
#[derive(Clone, Copy, PartialEq, Eq, Structural, Debug)]
pub struct UART {
    base_address: u16,
}

/// The full initialization recipe for the device: the writes to perform in
/// order, then a probe read whose answer decides whether the chip is
/// working, then one completion write that leaves loopback mode.
pub struct UartInitSequence {
    /// The register writes to perform, in order; the last one transmits the
    /// probe byte while the chip is in loopback mode.
    pub setup_writes: Vec<PortWrite>,
    /// The port to read the probe byte back from.
    pub probe_read_port: u16,
    /// The byte the probe read must return; any other answer means the chip
    /// failed and initialization must not proceed.
    pub expected_probe_response: u8,
    /// The write that leaves loopback mode and enters normal operation,
    /// performed only after a successful probe.
    pub completion_write: PortWrite,
}

/// A byte as the transmitter sends it: printable characters, newline and tab
/// go through unchanged, everything else becomes the replacement byte 0xfe.
pub open spec fn sanitize_serial_byte(b: u8) -> u8 {
    if (0x20 <= b && b <= 0x7e) || b == 0x0a || b == 0x09 {
        b
    } else {
        0xfe
    }
}

impl UART {
    /// The address of the device's first register.
    pub closed spec fn spec_base_address(self) -> u16 {
        self.base_address
    }

    /// The device's six registers must all have addresses: the base address
    /// leaves room for offsets up to 5.
    pub open spec fn wf(self) -> bool {
        self.spec_base_address() + 5 <= u16::MAX
    }

    /// A device at the given base address.
    pub fn new(base_address: u16) -> (r: UART)
        ensures
            r.spec_base_address() == base_address,
    {
        UART { base_address }
    }

    /// The initialization recipe: interrupts off, baud divisor 3 (38400
    /// baud), 8 data bits with no parity and one stop bit, FIFOs enabled and
    /// cleared with a 14-byte threshold, then a loopback probe of the byte
    /// 0xAE; once the probe answers, one final write enters normal
    /// operation. The embedding layer performs the writes and the probe read
    /// and fails initialization on a wrong answer.
    pub fn init(&self) -> (plan: UartInitSequence)
        requires
            self.wf(),
        ensures
            plan.setup_writes@ == seq![
                PortWrite { port: (self.spec_base_address() + 1) as u16, value: 0x00 },
                PortWrite { port: (self.spec_base_address() + 3) as u16, value: 0x80 },
                PortWrite { port: self.spec_base_address(), value: 0x03 },
                PortWrite { port: (self.spec_base_address() + 1) as u16, value: 0x00 },
                PortWrite { port: (self.spec_base_address() + 3) as u16, value: 0x03 },
                PortWrite { port: (self.spec_base_address() + 2) as u16, value: 0xC7 },
                PortWrite { port: (self.spec_base_address() + 4) as u16, value: 0x0B },
                PortWrite { port: (self.spec_base_address() + 4) as u16, value: 0x1E },
                PortWrite { port: self.spec_base_address(), value: 0xAE },
            ],
            plan.probe_read_port == self.spec_base_address(),
            plan.expected_probe_response == 0xAE,
            plan.completion_write == (PortWrite {
                port: (self.spec_base_address() + 4) as u16,
                value: 0x0F,
            }),
    {
        let base = self.base_address;
        let mut setup_writes: Vec<PortWrite> = Vec::new();
        setup_writes.push(PortWrite { port: base + 1, value: 0x00 });  // all interrupts off
        setup_writes.push(PortWrite { port: base + 3, value: 0x80 });  // divisor latch open
        setup_writes.push(PortWrite { port: base, value: 0x03 });  // divisor 3, low byte
        setup_writes.push(PortWrite { port: base + 1, value: 0x00 });  // divisor, high byte
        setup_writes.push(PortWrite { port: base + 3, value: 0x03 });  // 8 bits, no parity, one stop bit
        setup_writes.push(PortWrite { port: base + 2, value: 0xC7 });  // FIFOs on, cleared, 14-byte threshold
        setup_writes.push(PortWrite { port: base + 4, value: 0x0B });  // IRQs on, RTS/DSR set
        setup_writes.push(PortWrite { port: base + 4, value: 0x1E });  // loopback mode for the probe
        setup_writes.push(PortWrite { port: base, value: 0xAE });  // the probe byte itself
        assert(setup_writes@ =~= seq![
            PortWrite { port: (base + 1) as u16, value: 0x00 },
            PortWrite { port: (base + 3) as u16, value: 0x80 },
            PortWrite { port: base, value: 0x03 },
            PortWrite { port: (base + 1) as u16, value: 0x00 },
            PortWrite { port: (base + 3) as u16, value: 0x03 },
            PortWrite { port: (base + 2) as u16, value: 0xC7 },
            PortWrite { port: (base + 4) as u16, value: 0x0B },
            PortWrite { port: (base + 4) as u16, value: 0x1E },
            PortWrite { port: base, value: 0xAE },
        ]);
        UartInitSequence {
            setup_writes,
            probe_read_port: base,
            expected_probe_response: 0xAE,
            completion_write: PortWrite { port: base + 4, value: 0x0F },  // normal operation
        }
    }

    /// The port holding the line-status register.
    pub fn line_status_port(&self) -> (r: u16)
        requires
            self.wf(),
        ensures
            r == self.spec_base_address() + 5,
    {
        self.base_address + 5
    }

    /// The port holding the data register.
    pub fn data_port(&self) -> (r: u16)
        ensures
            r == self.spec_base_address(),
    {
        self.base_address
    }

    /// Whether a received byte is waiting, read off a line-status byte the
    /// embedding layer fetched from [`Self::line_status_port`].
    pub fn received(&self, line_status: u8) -> (r: bool)
        ensures
            r == ((line_status & 1) > 0),
    {
        if (line_status & 1) > 0 {
            return true;
        }
        return false;
    }

    /// Whether the transmit buffer is empty and a byte may be written, read
    /// off a line-status byte the embedding layer fetched from
    /// [`Self::line_status_port`].
    pub fn is_transmit_empty(&self, line_status: u8) -> (r: bool)
        ensures
            r == ((line_status & 0x20) > 0),
    {
        if (line_status & 0x20) > 0 {
            return true;
        }
        return false;
    }

    /// The bytes to transmit for `text`, in order: each byte of the text,
    /// sanitized for the wire as [`sanitize_serial_byte`] describes. The
    /// embedding layer writes each one to the data port once the transmit
    /// buffer is empty.
    pub fn write_string(&self, text: &str) -> (r: Vec<u8>)
        ensures
            r@.len() == text.spec_bytes().len(),
            forall|i: int|
                0 <= i < r@.len() ==> #[trigger] r@[i] == sanitize_serial_byte(
                    text.spec_bytes()[i],
                ),
    {
        let bytes = text.as_bytes();
        let mut out: Vec<u8> = Vec::new();
        let n = bytes.len();
        for i in 0..n
            invariant
                n == bytes@.len(),
                bytes@ == text.spec_bytes(),
                out@.len() == i,
                forall|k: int|
                    0 <= k < i ==> #[trigger] out@[k] == sanitize_serial_byte(text.spec_bytes()[k]),
        {
            let byte = bytes[i];
            if (0x20 <= byte && byte <= 0x7e) || byte == 0x0a || byte == 0x09 {
                out.push(byte);
            } else {
                out.push(0xfe);
            }
        }
        out
    }
}

} // verus!
