//! The serial transmitter's register protocol.

use pms_rust_os::port::{Port, PortWrite};
use pms_rust_os::uart_16550::UART;

/// The initialization recipe, write for write.
#[test]
fn init_sequence_is_exact() {
    let uart = UART::new(0x3f8);
    let plan = uart.init();
    let expected = vec![
        PortWrite { port: 0x3f9, value: 0x00 },
        PortWrite { port: 0x3fb, value: 0x80 },
        PortWrite { port: 0x3f8, value: 0x03 },
        PortWrite { port: 0x3f9, value: 0x00 },
        PortWrite { port: 0x3fb, value: 0x03 },
        PortWrite { port: 0x3fa, value: 0xC7 },
        PortWrite { port: 0x3fc, value: 0x0B },
        PortWrite { port: 0x3fc, value: 0x1E },
        PortWrite { port: 0x3f8, value: 0xAE },
    ];
    assert_eq!(plan.setup_writes, expected);
    assert_eq!(plan.probe_read_port, 0x3f8);
    assert_eq!(plan.expected_probe_response, 0xAE);
    assert_eq!(plan.completion_write, PortWrite { port: 0x3fc, value: 0x0F });
}

/// The register block sits at fixed offsets from the base.
#[test]
fn register_addresses() {
    let uart = UART::new(0x3f8);
    assert_eq!(uart.data_port(), 0x3f8);
    assert_eq!(uart.line_status_port(), 0x3fd);
    let port = Port::new(0x3f8);
    assert_eq!(port.address(), 0x3f8);
}

/// Bit 0 of the line status signals a received byte.
#[test]
fn received_reads_bit_zero() {
    let uart = UART::new(0x3f8);
    assert!(uart.received(0x01));
    assert!(uart.received(0xFF));
    assert!(!uart.received(0x00));
    assert!(!uart.received(0xFE));
}

/// Bit 5 of the line status signals an empty transmit buffer.
#[test]
fn transmit_empty_reads_bit_five() {
    let uart = UART::new(0x3f8);
    assert!(uart.is_transmit_empty(0x20));
    assert!(uart.is_transmit_empty(0xFF));
    assert!(!uart.is_transmit_empty(0x00));
    assert!(!uart.is_transmit_empty(0xDF));
}

/// Printable characters, newline and tab go to the wire unchanged; anything
/// else becomes the replacement byte.
#[test]
fn write_string_sanitizes() {
    let uart = UART::new(0x3f8);
    let out = uart.write_string("ab\n\tz");
    assert_eq!(out, vec![b'a', b'b', b'\n', b'\t', b'z']);

    let out = uart.write_string("a\u{1}b");
    assert_eq!(out, vec![b'a', 0xfe, b'b']);

    // a multi-byte character is sanitized byte by byte
    let out = uart.write_string("é");
    assert_eq!(out, vec![0xfe, 0xfe]);

    let out = uart.write_string("");
    assert!(out.is_empty());
}
