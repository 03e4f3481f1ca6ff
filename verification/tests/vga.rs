//! The two character-cell text writers.

use pms_rust_os::vga_buffer::{self, Color, ColorCode};
use pms_rust_os::vga_text;

const HEIGHT: usize = vga_buffer::BUFFER_HEIGHT;
const WIDTH: usize = vga_buffer::BUFFER_WIDTH;

/// A byte lands on the bottom row at the cursor.
#[test]
fn bottom_row_writer_places_bytes() {
    let mut writer = vga_buffer::Writer::new(Color::Yellow, Color::Black);
    writer.write_byte(b'X');
    writer.write_byte(b'Y');
    assert_eq!(writer.char_at(HEIGHT - 1, 0).ascii_character, b'X');
    assert_eq!(writer.char_at(HEIGHT - 1, 1).ascii_character, b'Y');
    assert_eq!(writer.char_at(HEIGHT - 1, 2).ascii_character, b' ');
    assert_eq!(
        writer.char_at(HEIGHT - 1, 0).color_code,
        ColorCode::new(Color::Yellow, Color::Black)
    );
}

/// A newline shifts the bottom row up and blanks it.
#[test]
fn bottom_row_writer_scrolls_on_newline() {
    let mut writer = vga_buffer::Writer::new(Color::Yellow, Color::Black);
    writer.write_string("a\nb");
    assert_eq!(writer.char_at(HEIGHT - 2, 0).ascii_character, b'a');
    assert_eq!(writer.char_at(HEIGHT - 1, 0).ascii_character, b'b');
    assert_eq!(writer.char_at(HEIGHT - 1, 1).ascii_character, b' ');
}

/// Running past the last column wraps onto a fresh bottom row.
#[test]
fn bottom_row_writer_wraps_long_lines() {
    let mut writer = vga_buffer::Writer::new(Color::Yellow, Color::Black);
    for _ in 0..WIDTH {
        writer.write_byte(b'x');
    }
    writer.write_byte(b'y');
    assert_eq!(writer.char_at(HEIGHT - 2, 0).ascii_character, b'x');
    assert_eq!(writer.char_at(HEIGHT - 2, WIDTH - 1).ascii_character, b'x');
    assert_eq!(writer.char_at(HEIGHT - 1, 0).ascii_character, b'y');
}

/// Unprintable bytes become the replacement character.
#[test]
fn bottom_row_writer_sanitizes() {
    let mut writer = vga_buffer::Writer::new(Color::Yellow, Color::Black);
    writer.write_string("a\u{1}b");
    assert_eq!(writer.char_at(HEIGHT - 1, 0).ascii_character, b'a');
    assert_eq!(writer.char_at(HEIGHT - 1, 1).ascii_character, 0xfe);
    assert_eq!(writer.char_at(HEIGHT - 1, 2).ascii_character, b'b');
}

/// A short print lands intact on the bottom row.
#[test]
fn test_println_simple() {
    let mut writer = vga_buffer::Writer::new(Color::Yellow, Color::Black);
    writer.write_string("test output\n");
    let line = "test output";
    for (i, byte) in line.bytes().enumerate() {
        assert_eq!(writer.char_at(HEIGHT - 2, i).ascii_character, byte);
    }
}

/// Many prints in a row keep working; the last line is the last one printed.
#[test]
fn test_println_many() {
    let mut writer = vga_buffer::Writer::new(Color::Yellow, Color::Black);
    for _ in 0..200 {
        writer.write_string("test output\n");
    }
    for (i, byte) in "test output".bytes().enumerate() {
        assert_eq!(writer.char_at(HEIGHT - 2, i).ascii_character, byte);
    }
}

/// A printed line can be read back cell by cell, as on the screen.
#[test]
fn test_println_output() {
    let mut writer = vga_buffer::Writer::new(Color::Yellow, Color::Black);
    let s = "Some test string that fits on a single line";
    writer.write_string("\n");
    writer.write_string(s);
    writer.write_string("\n");
    for (i, c) in s.chars().enumerate() {
        let screen_char = writer.char_at(HEIGHT - 2, i);
        assert_eq!(char::from(screen_char.ascii_character), c);
    }
}

/// The line-cursor writer fills the screen from the top.
#[test]
fn line_writer_fills_from_top() {
    let mut writer = vga_text::Writer::new(Color::Black, Color::White);
    writer.print_string("ab\ncd");
    assert_eq!(writer.char_at(0, 0).ascii_character, b'a');
    assert_eq!(writer.char_at(0, 1).ascii_character, b'b');
    assert_eq!(writer.char_at(1, 0).ascii_character, b'c');
    assert_eq!(writer.char_at(1, 1).ascii_character, b'd');
}

/// Tabs advance to the next tab stop.
#[test]
fn line_writer_tab_stops() {
    let mut writer = vga_text::Writer::new(Color::Black, Color::White);
    writer.print_string("a\tb");
    assert_eq!(writer.char_at(0, 0).ascii_character, b'a');
    assert_eq!(writer.char_at(0, 4).ascii_character, b'b');
    assert_eq!(writer.char_at(0, 1).ascii_character, b' ');

    let mut at_stop = vga_text::Writer::new(Color::Black, Color::White);
    at_stop.print_string("\tx");
    assert_eq!(at_stop.char_at(0, 4).ascii_character, b'x');
}

/// The grid scrolls only once the cursor runs past the last row.
#[test]
fn line_writer_scrolls_at_bottom() {
    let mut writer = vga_text::Writer::new(Color::Black, Color::White);
    for i in 0..HEIGHT {
        writer.print_string(if i % 2 == 0 { "e\n" } else { "o\n" });
    }
    // one full screen plus one newline: the first line has scrolled away
    assert_eq!(writer.char_at(0, 0).ascii_character, b'o');
    writer.print_string("z");
    assert_eq!(writer.char_at(HEIGHT - 1, 0).ascii_character, b'z');
}

/// Clearing blanks every cell and homes both cursors.
#[test]
fn line_writer_clear() {
    let mut writer = vga_text::Writer::new(Color::Black, Color::White);
    writer.print_string("some text\nmore text");
    writer.clear();
    for row in 0..HEIGHT {
        for col in 0..WIDTH {
            assert_eq!(writer.char_at(row, col).ascii_character, b' ');
        }
    }
    writer.print_string("x");
    assert_eq!(writer.char_at(0, 0).ascii_character, b'x');
}

/// Unprintable bytes become the replacement character here too; tab and
/// newline stay control characters.
#[test]
fn line_writer_sanitizes() {
    let mut writer = vga_text::Writer::new(Color::Black, Color::White);
    writer.print_string("a\u{7}b");
    assert_eq!(writer.char_at(0, 0).ascii_character, b'a');
    assert_eq!(writer.char_at(0, 1).ascii_character, 0xfe);
    assert_eq!(writer.char_at(0, 2).ascii_character, b'b');
}

/// Long lines wrap onto the next row.
#[test]
fn line_writer_wraps_long_lines() {
    let mut writer = vga_text::Writer::new(Color::Black, Color::White);
    for _ in 0..WIDTH {
        writer.write_char('x');
    }
    writer.write_char('y');
    assert_eq!(writer.char_at(0, WIDTH - 1).ascii_character, b'x');
    assert_eq!(writer.char_at(1, 0).ascii_character, b'y');
}
