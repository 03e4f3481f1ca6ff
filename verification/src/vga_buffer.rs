//! The character-cell text writer that always writes on the bottom row.
//!
//! The screen is a fixed grid of colored character cells. This writer keeps
//! a column cursor on the bottom row; a newline, or running past the last
//! column, shifts every row up by one and blanks the bottom row. The grid is
//! modelled here as owned cells; the embedding layer mirrors it into the
//! memory-mapped hardware buffer.

use vstd::prelude::*;
use vstd::string::StringSliceAdditionalSpecFns;

verus! {

/// The height of the text buffer in rows.
pub const BUFFER_HEIGHT: usize = 25;

/// The width of the text buffer in columns.
pub const BUFFER_WIDTH: usize = 80;

/// The sixteen colors of the text mode.
#[allow(missing_docs)]
#[derive(Clone, Copy, PartialEq, Eq, Structural, Debug)]
pub enum Color {
    Black,
    Blue,
    Green,
    Cyan,
    Red,
    Magenta,
    Brown,
    LightGray,
    DarkGray,
    LightBlue,
    LightGreen,
    LightCyan,
    LightRed,
    Pink,
    Yellow,
    White,
}

impl Color {
    /// The color's four-bit hardware value.
    pub open spec fn spec_code(self) -> u8 {
        match self {
            Color::Black => 0,
            Color::Blue => 1,
            Color::Green => 2,
            Color::Cyan => 3,
            Color::Red => 4,
            Color::Magenta => 5,
            Color::Brown => 6,
            Color::LightGray => 7,
            Color::DarkGray => 8,
            Color::LightBlue => 9,
            Color::LightGreen => 10,
            Color::LightCyan => 11,
            Color::LightRed => 12,
            Color::Pink => 13,
            Color::Yellow => 14,
            Color::White => 15,
        }
    }

    /// The color's four-bit hardware value.
    pub fn code(self) -> (r: u8)
        ensures
            r == self.spec_code(),
    {
        match self {
            Color::Black => 0,
            Color::Blue => 1,
            Color::Green => 2,
            Color::Cyan => 3,
            Color::Red => 4,
            Color::Magenta => 5,
            Color::Brown => 6,
            Color::LightGray => 7,
            Color::DarkGray => 8,
            Color::LightBlue => 9,
            Color::LightGreen => 10,
            Color::LightCyan => 11,
            Color::LightRed => 12,
            Color::Pink => 13,
            Color::Yellow => 14,
            Color::White => 15,
        }
    }
}

/// A cell's color byte: four bits of background color over four bits of
/// foreground color.
#[derive(Clone, Copy, PartialEq, Eq, Structural, Debug)]
pub struct ColorCode(u8);

impl ColorCode {
    /// The packed byte value.
    pub closed spec fn spec_value(self) -> u8 {
        self.0
    }

    /// Packs a foreground and a background color into one byte.
    pub fn new(foreground: Color, background: Color) -> (r: ColorCode)
        ensures
            r.spec_value() == (background.spec_code() << 4) | foreground.spec_code(),
    {
        ColorCode((background.code() << 4) | foreground.code())
    }

    /// The packed byte value, for the embedding layer to store in the
    /// hardware cell.
    pub fn value(&self) -> (r: u8)
        ensures
            r == self.spec_value(),
    {
        self.0
    }
}

/// One cell of the screen: a character byte and its color.
#[derive(Clone, Copy, PartialEq, Eq, Structural, Debug)]
pub struct ScreenChar {
    /// The character, as the hardware code page encodes it.
    pub ascii_character: u8,
    /// The cell's color byte.
    pub color_code: ColorCode,
}

/// A blank cell: a space in the given color.
pub open spec fn blank_char(color: ColorCode) -> ScreenChar {
    ScreenChar { ascii_character: 0x20, color_code: color }
}

/// A row of blank cells.
pub open spec fn blank_row(color: ColorCode) -> Seq<ScreenChar> {
    Seq::new(BUFFER_WIDTH as nat, |c: int| blank_char(color))
}

/// The grid scrolled up by one row: every row takes the contents of the row
/// below it, and the bottom row becomes blank.
pub open spec fn scrolled(rows: Seq<Seq<ScreenChar>>, color: ColorCode) -> Seq<Seq<ScreenChar>> {
    Seq::new(
        rows.len(),
        |r: int|
            if r + 1 < rows.len() {
                rows[r + 1]
            } else {
                blank_row(color)
            },
    )
}

/// One step of the writer on a raw byte: a newline scrolls and returns the
/// cursor to column zero; any other byte is placed on the bottom row at the
/// cursor — after scrolling first if the row is full — and advances the
/// cursor. The result is the new grid and the new cursor column.
pub open spec fn vga_write_byte(
    rows: Seq<Seq<ScreenChar>>,
    col: int,
    color: ColorCode,
    byte: u8,
) -> (Seq<Seq<ScreenChar>>, int) {
    if byte == 0x0a {
        (scrolled(rows, color), 0)
    } else {
        let rows0 = if col >= BUFFER_WIDTH {
            scrolled(rows, color)
        } else {
            rows
        };
        let col0: int = if col >= BUFFER_WIDTH {
            0
        } else {
            col
        };
        let bottom = rows0.len() - 1;
        (
            rows0.update(
                bottom,
                rows0[bottom].update(
                    col0,
                    ScreenChar { ascii_character: byte, color_code: color },
                ),
            ),
            col0 + 1,
        )
    }
}

/// A byte as this writer prints it: printable characters and newline go
/// through unchanged, everything else becomes the replacement character.
pub open spec fn sanitize_vga_byte(b: u8) -> u8 {
    if (0x20 <= b && b <= 0x7e) || b == 0x0a {
        b
    } else {
        0xfe
    }
}

/// The writer's steps over a whole byte sequence, each byte sanitized first.
pub open spec fn vga_write_bytes(
    rows: Seq<Seq<ScreenChar>>,
    col: int,
    color: ColorCode,
    bytes: Seq<u8>,
) -> (Seq<Seq<ScreenChar>>, int)
    decreases bytes.len(),
{
    if bytes.len() == 0 {
        (rows, col)
    } else {
        let stepped = vga_write_byte(rows, col, color, sanitize_vga_byte(bytes[0]));
        vga_write_bytes(stepped.0, stepped.1, color, bytes.skip(1))
    }
}

/// The writer: a column cursor on the bottom row, the color new cells take,
/// and the grid of cells.
pub struct Writer {
    column_position: usize,
    color_code: ColorCode,
    buffer: Vec<Vec<ScreenChar>>,
}

impl Writer {
    /// The grid of cells, by row then column.
    pub closed spec fn rows(self) -> Seq<Seq<ScreenChar>> {
        Seq::new(self.buffer@.len(), |r: int| self.buffer@[r]@)
    }

    /// The cursor column on the bottom row.
    pub closed spec fn col(self) -> int {
        self.column_position as int
    }

    /// The color new cells take.
    pub closed spec fn color(self) -> ColorCode {
        self.color_code
    }

    /// The writer is well formed: a full grid, and the cursor at most one
    /// past the last column.
    pub open spec fn wf(self) -> bool {
        &&& self.rows().len() == BUFFER_HEIGHT
        &&& forall|r: int|
            0 <= r < BUFFER_HEIGHT ==> (#[trigger] self.rows()[r]).len() == BUFFER_WIDTH
        &&& 0 <= self.col() <= BUFFER_WIDTH
    }

    /// A writer over a blank screen, printing in the given colors.
    pub fn new(foreground: Color, background: Color) -> (r: Writer)
        ensures
            r.wf(),
            r.col() == 0,
            r.color().spec_value() == (background.spec_code() << 4) | foreground.spec_code(),
            r.rows() == Seq::new(BUFFER_HEIGHT as nat, |i: int| blank_row(r.color())),
    {
        let color_code = ColorCode::new(foreground, background);
        let mut buffer: Vec<Vec<ScreenChar>> = Vec::new();
        for r in 0..BUFFER_HEIGHT
            invariant
                buffer@.len() == r,
                forall|i: int| 0 <= i < r ==> #[trigger] buffer@[i]@ == blank_row(color_code),
        {
            let mut row: Vec<ScreenChar> = Vec::new();
            for c in 0..BUFFER_WIDTH
                invariant
                    row@ =~= blank_row(color_code).subrange(0, c as int),
            {
                row.push(ScreenChar { ascii_character: 0x20, color_code });
                assert(row@ =~= blank_row(color_code).subrange(0, c + 1));
            }
            assert(row@ =~= blank_row(color_code));
            buffer.push(row);
        }
        let writer = Writer { column_position: 0, color_code, buffer };
        assert(writer.rows() =~= Seq::new(
            BUFFER_HEIGHT as nat,
            |i: int| blank_row(color_code),
        ));
        writer
    }

    /// One cell of the grid.
    fn get_cell(&self, row: usize, col: usize) -> (r: ScreenChar)
        requires
            self.wf(),
            row < BUFFER_HEIGHT,
            col < BUFFER_WIDTH,
        ensures
            r == self.rows()[row as int][col as int],
    {
        proof {
            assert(self.rows()[row as int] == self.buffer@[row as int]@);
        }
        self.buffer[row][col]
    }

    /// Replaces one cell of the grid.
    fn set_cell(&mut self, row: usize, col: usize, cell: ScreenChar)
        requires
            old(self).wf(),
            row < BUFFER_HEIGHT,
            col < BUFFER_WIDTH,
        ensures
            final(self).wf(),
            final(self).color() == old(self).color(),
            final(self).col() == old(self).col(),
            final(self).rows() == old(self).rows().update(
                row as int,
                old(self).rows()[row as int].update(col as int, cell),
            ),
    {
        proof {
            assert(self.rows()[row as int] == self.buffer@[row as int]@);
        }
        self.buffer[row][col] = cell;
        proof {
            let target = old(self).rows().update(
                row as int,
                old(self).rows()[row as int].update(col as int, cell),
            );
            assert(self.rows() =~~= target);
        }
    }

    /// Writes one byte: a newline starts a new line; any other byte lands on
    /// the bottom row at the cursor, scrolling first when the row is full.
    pub fn write_byte(&mut self, byte: u8)
        requires
            old(self).wf(),
        ensures
            final(self).wf(),
            final(self).color() == old(self).color(),
            (final(self).rows(), final(self).col()) == vga_write_byte(
                old(self).rows(),
                old(self).col(),
                old(self).color(),
                byte,
            ),
    {
        if byte == 0x0a {
            self.new_line();
        } else {
            if self.column_position >= BUFFER_WIDTH {
                self.new_line();
            }
            let row = BUFFER_HEIGHT - 1;
            let col = self.column_position;
            let color_code = self.color_code;
            self.set_cell(row, col, ScreenChar { ascii_character: byte, color_code });
            self.column_position = self.column_position + 1;
        }
    }

    /// Starts a new line: shifts every row up by one, blanks the bottom row
    /// and returns the cursor to column zero.
    fn new_line(&mut self)
        requires
            old(self).wf(),
        ensures
            final(self).wf(),
            final(self).color() == old(self).color(),
            final(self).rows() == scrolled(old(self).rows(), old(self).color()),
            final(self).col() == 0,
    {
        let ghost start = self.rows();
        for row in 1..BUFFER_HEIGHT
            invariant
                old(self).wf(),
                self.wf(),
                self.color() == old(self).color(),
                start == old(self).rows(),
                forall|r: int| 0 <= r < row - 1 ==> #[trigger] self.rows()[r] == start[r + 1],
                forall|r: int|
                    row - 1 <= r < BUFFER_HEIGHT ==> #[trigger] self.rows()[r] == start[r],
        {
            for col in 0..BUFFER_WIDTH
                invariant
                    1 <= row < BUFFER_HEIGHT,
                    old(self).wf(),
                    self.wf(),
                    self.color() == old(self).color(),
                    start == old(self).rows(),
                    forall|r: int| 0 <= r < row - 1 ==> #[trigger] self.rows()[r] == start[r + 1],
                    forall|r: int|
                        row <= r < BUFFER_HEIGHT ==> #[trigger] self.rows()[r] == start[r],
                    self.rows()[row - 1] =~= start[row as int].subrange(0, col as int)
                        + start[row - 1].subrange(col as int, BUFFER_WIDTH as int),
            {
                let character = self.get_cell(row, col);
                self.set_cell(row - 1, col, character);
                assert(self.rows()[row - 1] =~= start[row as int].subrange(0, col + 1)
                    + start[row - 1].subrange(col + 1, BUFFER_WIDTH as int));
            }
            assert(self.rows()[row - 1] =~= start[row as int]);
        }
        self.clear_row(BUFFER_HEIGHT - 1);
        self.column_position = 0;
        assert(self.rows() =~~= scrolled(start, self.color()));
    }

    /// Blanks one row with spaces in the writer's color.
    fn clear_row(&mut self, row: usize)
        requires
            old(self).wf(),
            row < BUFFER_HEIGHT,
        ensures
            final(self).wf(),
            final(self).color() == old(self).color(),
            final(self).col() == old(self).col(),
            final(self).rows() == old(self).rows().update(
                row as int,
                blank_row(old(self).color()),
            ),
    {
        let blank = ScreenChar { ascii_character: 0x20, color_code: self.color_code };
        for col in 0..BUFFER_WIDTH
            invariant
                row < BUFFER_HEIGHT,
                old(self).wf(),
                self.wf(),
                self.color() == old(self).color(),
                self.col() == old(self).col(),
                blank == blank_char(old(self).color()),
                forall|r: int|
                    0 <= r < BUFFER_HEIGHT && r != row ==> #[trigger] self.rows()[r] == old(
                        self,
                    ).rows()[r],
                self.rows()[row as int] =~= blank_row(old(self).color()).subrange(0, col as int)
                    + old(self).rows()[row as int].subrange(col as int, BUFFER_WIDTH as int),
        {
            self.set_cell(row, col, blank);
            assert(self.rows()[row as int] =~= blank_row(old(self).color()).subrange(0, col + 1)
                + old(self).rows()[row as int].subrange(col + 1, BUFFER_WIDTH as int));
        }
        assert(self.rows()[row as int] =~= blank_row(old(self).color()));
        assert(self.rows() =~~= old(self).rows().update(row as int, blank_row(old(self).color())));
    }

    /// Writes a string byte by byte, sanitizing each byte for the screen as
    /// [`sanitize_vga_byte`] describes.
    pub fn write_string(&mut self, s: &str)
        requires
            old(self).wf(),
        ensures
            final(self).wf(),
            final(self).color() == old(self).color(),
            (final(self).rows(), final(self).col()) == vga_write_bytes(
                old(self).rows(),
                old(self).col(),
                old(self).color(),
                s.spec_bytes(),
            ),
    {
        let bytes = s.as_bytes();
        let n = bytes.len();
        assert(bytes@.subrange(0, 0) =~= Seq::<u8>::empty());
        for i in 0..n
            invariant
                n == bytes@.len(),
                bytes@ == s.spec_bytes(),
                old(self).wf(),
                self.wf(),
                self.color() == old(self).color(),
                (self.rows(), self.col()) == vga_write_bytes(
                    old(self).rows(),
                    old(self).col(),
                    old(self).color(),
                    bytes@.subrange(0, i as int),
                ),
        {
            let byte = bytes[i];
            if (0x20 <= byte && byte <= 0x7e) || byte == 0x0a {
                self.write_byte(byte);
            } else {
                self.write_byte(0xfe);
            }
            proof {
                lemma_vga_write_bytes_snoc(
                    old(self).rows(),
                    old(self).col(),
                    old(self).color(),
                    bytes@,
                    i as int,
                );
            }
        }
        assert(bytes@.subrange(0, n as int) =~= bytes@);
    }

    /// One cell of the grid, for inspection.
    pub fn char_at(&self, row: usize, col: usize) -> (r: ScreenChar)
        requires
            self.wf(),
            row < BUFFER_HEIGHT,
            col < BUFFER_WIDTH,
        ensures
            r == self.rows()[row as int][col as int],
    {
        self.get_cell(row, col)
    }
}

/// Writing one more byte extends the writer's steps by one.
proof fn lemma_vga_write_bytes_snoc(
    rows: Seq<Seq<ScreenChar>>,
    col: int,
    color: ColorCode,
    bytes: Seq<u8>,
    i: int,
)
    requires
        0 <= i < bytes.len(),
    ensures
        ({
            let before = vga_write_bytes(rows, col, color, bytes.subrange(0, i));
            vga_write_bytes(rows, col, color, bytes.subrange(0, i + 1)) == vga_write_byte(
                before.0,
                before.1,
                color,
                sanitize_vga_byte(bytes[i]),
            )
        }),
    decreases i,
{
    if i == 0 {
        let one = bytes.subrange(0, 1);
        assert(bytes.subrange(0, 0) =~= Seq::<u8>::empty());
        assert(one.skip(1) =~= Seq::<u8>::empty());
        let stepped = vga_write_byte(rows, col, color, sanitize_vga_byte(one[0]));
        assert(vga_write_bytes(rows, col, color, one) == vga_write_bytes(
            stepped.0,
            stepped.1,
            color,
            one.skip(1),
        ));
    } else {
        let head = sanitize_vga_byte(bytes[0]);
        let stepped = vga_write_byte(rows, col, color, head);
        lemma_vga_write_bytes_snoc(stepped.0, stepped.1, color, bytes.skip(1), i - 1);
        assert(bytes.skip(1).subrange(0, i - 1) =~= bytes.subrange(0, i).skip(1));
        assert(bytes.skip(1).subrange(0, i) =~= bytes.subrange(0, i + 1).skip(1));
        assert(bytes.skip(1)[i - 1] == bytes[i]);
        assert(bytes.subrange(0, i)[0] == bytes[0]);
        assert(bytes.subrange(0, i + 1)[0] == bytes[0]);
        assert(vga_write_bytes(rows, col, color, bytes.subrange(0, i)) == vga_write_bytes(
            stepped.0,
            stepped.1,
            color,
            bytes.subrange(0, i).skip(1),
        ));
        assert(vga_write_bytes(rows, col, color, bytes.subrange(0, i + 1)) == vga_write_bytes(
            stepped.0,
            stepped.1,
            color,
            bytes.subrange(0, i + 1).skip(1),
        ));
    }
}

} // verus!
