//! The character-cell text writer with a line cursor.
//!
//! Unlike the writer of [`crate::vga_buffer`], which always prints on the
//! bottom row, this writer keeps a line cursor as well: output fills the
//! screen from the top, tabs advance to the next tab stop, and the grid only
//! scrolls once the cursor runs past the last row. The cell grid is owned
//! here; the embedding layer mirrors it into the memory-mapped hardware
//! buffer.

use vstd::prelude::*;
use vstd::string::StringSliceAdditionalSpecFns;

use crate::vga_buffer::{
    blank_char, blank_row, scrolled, Color, ColorCode, ScreenChar, BUFFER_HEIGHT, BUFFER_WIDTH,
};

verus! {

/// The distance between tab stops, in columns.
pub const TAB_WIDTH: usize = 4;

/// A line break: the cursor moves to the start of the next line, scrolling
/// once it would run past the last row. The result is the new grid and the
/// new line cursor.
pub open spec fn text_new_line(
    rows: Seq<Seq<ScreenChar>>,
    line: int,
    color: ColorCode,
) -> (Seq<Seq<ScreenChar>>, int) {
    if line + 1 >= BUFFER_HEIGHT {
        (scrolled(rows, color), BUFFER_HEIGHT - 1)
    } else {
        (rows, line + 1)
    }
}

/// One step of the writer on a character: a newline breaks the line, a tab
/// advances the column cursor to the next tab stop, and any other character
/// is placed at the cursor — after breaking the line first when the column
/// cursor has run past the last column — and advances the column cursor.
/// The result is the new grid, the new line cursor and the new column
/// cursor.
pub open spec fn text_write_char(
    rows: Seq<Seq<ScreenChar>>,
    line: int,
    col: int,
    color: ColorCode,
    c: char,
) -> (Seq<Seq<ScreenChar>>, int, int) {
    if c == '\n' {
        let stepped = text_new_line(rows, line, color);
        (stepped.0, stepped.1, 0)
    } else if c == '\t' {
        (rows, line, col + (TAB_WIDTH - col % (TAB_WIDTH as int)))
    } else {
        let wrapped = col >= BUFFER_WIDTH;
        let stepped = if wrapped {
            text_new_line(rows, line, color)
        } else {
            (rows, line)
        };
        let col0: int = if wrapped {
            0
        } else {
            col
        };
        (
            stepped.0.update(
                stepped.1,
                stepped.0[stepped.1].update(
                    col0,
                    ScreenChar { ascii_character: c as u8, color_code: color },
                ),
            ),
            stepped.1,
            col0 + 1,
        )
    }
}

/// A byte as this writer prints it: printable characters, newline and tab go
/// through unchanged, everything else becomes the replacement character.
pub open spec fn sanitize_text_byte(b: u8) -> u8 {
    if (0x20 <= b && b <= 0x7e) || b == 0x0a || b == 0x09 {
        b
    } else {
        0xfe
    }
}

/// The writer's steps over a whole byte sequence, each byte sanitized first.
pub open spec fn text_write_bytes(
    rows: Seq<Seq<ScreenChar>>,
    line: int,
    col: int,
    color: ColorCode,
    bytes: Seq<u8>,
) -> (Seq<Seq<ScreenChar>>, int, int)
    decreases bytes.len(),
{
    if bytes.len() == 0 {
        (rows, line, col)
    } else {
        let stepped = text_write_char(rows, line, col, color, sanitize_text_byte(bytes[0]) as char);
        text_write_bytes(stepped.0, stepped.1, stepped.2, color, bytes.skip(1))
    }
}

/// The writer: a line and a column cursor, the color new cells take, and the
/// grid of cells.
pub struct Writer {
    column_position: usize,
    line_position: usize,
    color_code: ColorCode,
    buffer: Vec<Vec<ScreenChar>>,
}

impl Writer {
    /// The grid of cells, by row then column.
    pub closed spec fn rows(self) -> Seq<Seq<ScreenChar>> {
        Seq::new(self.buffer@.len(), |r: int| self.buffer@[r]@)
    }

    /// The column cursor; tabs can push it past the last column, and the
    /// next character then wraps.
    pub closed spec fn col(self) -> int {
        self.column_position as int
    }

    /// The line cursor.
    pub closed spec fn line(self) -> int {
        self.line_position as int
    }

    /// The color new cells take.
    pub closed spec fn color(self) -> ColorCode {
        self.color_code
    }

    /// The writer is well formed: a full grid and the line cursor on it.
    pub open spec fn wf(self) -> bool {
        &&& self.rows().len() == BUFFER_HEIGHT
        &&& forall|r: int|
            0 <= r < BUFFER_HEIGHT ==> (#[trigger] self.rows()[r]).len() == BUFFER_WIDTH
        &&& 0 <= self.line() < BUFFER_HEIGHT
        &&& 0 <= self.col()
    }

    /// A writer over a blank screen, printing in the given colors.
    pub fn new(foreground: Color, background: Color) -> (r: Writer)
        ensures
            r.wf(),
            r.col() == 0,
            r.line() == 0,
            r.color().spec_value() == (background.spec_code() << 4) | foreground.spec_code(),
            r.rows() == Seq::new(BUFFER_HEIGHT as nat, |i: int| blank_row(r.color())),
    {
        let color_code = ColorCode::new(foreground, background);
        let mut buffer: Vec<Vec<ScreenChar>> = Vec::new();
        for r in 0..BUFFER_HEIGHT
            invariant
                buffer@.len() == r,
                forall|i: int| 0 <= i < r ==> #[trigger] buffer@[i]@ == blank_row(color_code),
        {
            let mut row: Vec<ScreenChar> = Vec::new();
            for c in 0..BUFFER_WIDTH
                invariant
                    row@ =~= blank_row(color_code).subrange(0, c as int),
            {
                row.push(ScreenChar { ascii_character: 0x20, color_code });
                assert(row@ =~= blank_row(color_code).subrange(0, c + 1));
            }
            assert(row@ =~= blank_row(color_code));
            buffer.push(row);
        }
        let writer = Writer { column_position: 0, line_position: 0, color_code, buffer };
        assert(writer.rows() =~= Seq::new(
            BUFFER_HEIGHT as nat,
            |i: int| blank_row(color_code),
        ));
        writer
    }

    /// Replaces one cell of the grid.
    fn set_cell(&mut self, row: usize, col: usize, cell: ScreenChar)
        requires
            old(self).wf(),
            row < BUFFER_HEIGHT,
            col < BUFFER_WIDTH,
        ensures
            final(self).wf(),
            final(self).color() == old(self).color(),
            final(self).col() == old(self).col(),
            final(self).line() == old(self).line(),
            final(self).rows() == old(self).rows().update(
                row as int,
                old(self).rows()[row as int].update(col as int, cell),
            ),
    {
        proof {
            assert(self.rows()[row as int] == self.buffer@[row as int]@);
        }
        self.buffer[row][col] = cell;
        proof {
            let target = old(self).rows().update(
                row as int,
                old(self).rows()[row as int].update(col as int, cell),
            );
            assert(self.rows() =~~= target);
        }
    }

    /// One cell of the grid.
    fn get_cell(&self, row: usize, col: usize) -> (r: ScreenChar)
        requires
            self.wf(),
            row < BUFFER_HEIGHT,
            col < BUFFER_WIDTH,
        ensures
            r == self.rows()[row as int][col as int],
    {
        proof {
            assert(self.rows()[row as int] == self.buffer@[row as int]@);
        }
        self.buffer[row][col]
    }

    /// Writes one character at the cursor, as [`text_write_char`] describes.
    pub fn write_char(&mut self, c: char)
        requires
            old(self).wf(),
            old(self).col() + TAB_WIDTH <= usize::MAX,
        ensures
            final(self).wf(),
            final(self).color() == old(self).color(),
            (final(self).rows(), final(self).line(), final(self).col()) == text_write_char(
                old(self).rows(),
                old(self).line(),
                old(self).col(),
                old(self).color(),
                c,
            ),
    {
        if c == '\n' {
            self.new_line();
        } else if c == '\t' {
            let tab_pos = self.column_position % TAB_WIDTH;
            self.column_position = self.column_position + (TAB_WIDTH - tab_pos);
        } else {
            if self.column_position >= BUFFER_WIDTH {
                self.new_line();
            }
            let line = self.line_position;
            let col = self.column_position;
            let color_code = self.color_code;
            self.set_cell(line, col, ScreenChar { ascii_character: c as u8, color_code });
            self.column_position = self.column_position + 1;
        }
    }

    /// Breaks the line: the cursor moves to the start of the next line,
    /// scrolling once it would run past the last row.
    fn new_line(&mut self)
        requires
            old(self).wf(),
        ensures
            final(self).wf(),
            final(self).color() == old(self).color(),
            final(self).col() == 0,
            (final(self).rows(), final(self).line()) == text_new_line(
                old(self).rows(),
                old(self).line(),
                old(self).color(),
            ),
    {
        self.line_position = self.line_position + 1;
        self.column_position = 0;

        if self.line_position >= BUFFER_HEIGHT {
            self.scroll_up();
        }
    }

    /// Shifts every row up by one, blanks the last row, and puts the line
    /// cursor on the last row.
    fn scroll_up(&mut self)
        requires
            old(self).rows().len() == BUFFER_HEIGHT,
            forall|r: int|
                0 <= r < BUFFER_HEIGHT ==> (#[trigger] old(self).rows()[r]).len() == BUFFER_WIDTH,
            0 <= old(self).col(),
        ensures
            final(self).wf(),
            final(self).color() == old(self).color(),
            final(self).col() == old(self).col(),
            final(self).rows() == scrolled(old(self).rows(), old(self).color()),
            final(self).line() == BUFFER_HEIGHT - 1,
    {
        let ghost start = self.rows();
        self.line_position = BUFFER_HEIGHT - 1;
        for row in 1..BUFFER_HEIGHT
            invariant
                old(self).rows().len() == BUFFER_HEIGHT,
                forall|r: int|
                    0 <= r < BUFFER_HEIGHT ==> (#[trigger] old(self).rows()[r]).len()
                        == BUFFER_WIDTH,
                self.wf(),
                self.color() == old(self).color(),
                self.col() == old(self).col(),
                self.line() == BUFFER_HEIGHT - 1,
                start == old(self).rows(),
                forall|r: int| 0 <= r < row - 1 ==> #[trigger] self.rows()[r] == start[r + 1],
                forall|r: int|
                    row - 1 <= r < BUFFER_HEIGHT ==> #[trigger] self.rows()[r] == start[r],
        {
            for col in 0..BUFFER_WIDTH
                invariant
                    1 <= row < BUFFER_HEIGHT,
                    old(self).rows().len() == BUFFER_HEIGHT,
                    forall|r: int|
                        0 <= r < BUFFER_HEIGHT ==> (#[trigger] old(self).rows()[r]).len()
                            == BUFFER_WIDTH,
                    self.wf(),
                    self.color() == old(self).color(),
                    self.col() == old(self).col(),
                    self.line() == BUFFER_HEIGHT - 1,
                    start == old(self).rows(),
                    forall|r: int| 0 <= r < row - 1 ==> #[trigger] self.rows()[r] == start[r + 1],
                    forall|r: int|
                        row <= r < BUFFER_HEIGHT ==> #[trigger] self.rows()[r] == start[r],
                    self.rows()[row - 1] =~= start[row as int].subrange(0, col as int)
                        + start[row - 1].subrange(col as int, BUFFER_WIDTH as int),
            {
                let character = self.get_cell(row, col);
                self.set_cell(row - 1, col, character);
                assert(self.rows()[row - 1] =~= start[row as int].subrange(0, col + 1)
                    + start[row - 1].subrange(col + 1, BUFFER_WIDTH as int));
            }
            assert(self.rows()[row - 1] =~= start[row as int]);
        }

        let empty = ScreenChar { ascii_character: 0x20, color_code: self.color_code };
        let last = BUFFER_HEIGHT - 1;
        for col in 0..BUFFER_WIDTH
            invariant
                old(self).rows().len() == BUFFER_HEIGHT,
                forall|r: int|
                    0 <= r < BUFFER_HEIGHT ==> (#[trigger] old(self).rows()[r]).len()
                        == BUFFER_WIDTH,
                last == BUFFER_HEIGHT - 1,
                self.wf(),
                self.color() == old(self).color(),
                self.col() == old(self).col(),
                self.line() == BUFFER_HEIGHT - 1,
                start == old(self).rows(),
                empty == blank_char(old(self).color()),
                forall|r: int| 0 <= r < last ==> #[trigger] self.rows()[r] == start[r + 1],
                self.rows()[last as int] =~= blank_row(old(self).color()).subrange(0, col as int)
                    + start[last as int].subrange(col as int, BUFFER_WIDTH as int),
        {
            self.set_cell(last, col, empty);
            assert(self.rows()[last as int] =~= blank_row(old(self).color()).subrange(0, col + 1)
                + start[last as int].subrange(col + 1, BUFFER_WIDTH as int));
        }
        assert(self.rows()[last as int] =~= blank_row(old(self).color()));
        assert(self.rows() =~~= scrolled(start, old(self).color()));
    }

    /// Blanks the whole screen and returns both cursors to the top left.
    pub fn clear(&mut self)
        requires
            old(self).wf(),
        ensures
            final(self).wf(),
            final(self).color() == old(self).color(),
            final(self).rows() == Seq::new(
                BUFFER_HEIGHT as nat,
                |i: int| blank_row(old(self).color()),
            ),
            final(self).line() == 0,
            final(self).col() == 0,
    {
        let empty = ScreenChar { ascii_character: 0x20, color_code: self.color_code };
        for row in 0..BUFFER_HEIGHT
            invariant
                old(self).wf(),
                self.wf(),
                self.color() == old(self).color(),
                empty == blank_char(old(self).color()),
                forall|r: int| 0 <= r < row ==> #[trigger] self.rows()[r] == blank_row(
                    old(self).color(),
                ),
                forall|r: int|
                    row <= r < BUFFER_HEIGHT ==> #[trigger] self.rows()[r] == old(self).rows()[r],
        {
            for col in 0..BUFFER_WIDTH
                invariant
                    row < BUFFER_HEIGHT,
                    old(self).wf(),
                    self.wf(),
                    self.color() == old(self).color(),
                    empty == blank_char(old(self).color()),
                    forall|r: int| 0 <= r < row ==> #[trigger] self.rows()[r] == blank_row(
                        old(self).color(),
                    ),
                    forall|r: int|
                        row < r < BUFFER_HEIGHT ==> #[trigger] self.rows()[r] == old(
                            self,
                        ).rows()[r],
                    self.rows()[row as int] =~= blank_row(old(self).color()).subrange(
                        0,
                        col as int,
                    ) + old(self).rows()[row as int].subrange(col as int, BUFFER_WIDTH as int),
            {
                self.set_cell(row, col, empty);
                assert(self.rows()[row as int] =~= blank_row(old(self).color()).subrange(
                    0,
                    col + 1,
                ) + old(self).rows()[row as int].subrange(col + 1, BUFFER_WIDTH as int));
            }
            assert(self.rows()[row as int] =~= blank_row(old(self).color()));
        }
        self.line_position = 0;
        self.column_position = 0;
        assert(self.rows() =~~= Seq::new(BUFFER_HEIGHT as nat, |i: int| blank_row(
            old(self).color(),
        )));
    }

    /// Prints a string byte by byte, sanitizing each byte for the screen as
    /// [`sanitize_text_byte`] describes.
    pub fn print_string(&mut self, text: &str)
        requires
            old(self).wf(),
            old(self).col() + TAB_WIDTH * text.spec_bytes().len() <= usize::MAX,
        ensures
            final(self).wf(),
            final(self).color() == old(self).color(),
            (final(self).rows(), final(self).line(), final(self).col()) == text_write_bytes(
                old(self).rows(),
                old(self).line(),
                old(self).col(),
                old(self).color(),
                text.spec_bytes(),
            ),
    {
        let bytes = text.as_bytes();
        let n = bytes.len();
        assert(bytes@.subrange(0, 0) =~= Seq::<u8>::empty());
        for i in 0..n
            invariant
                n == bytes@.len(),
                bytes@ == text.spec_bytes(),
                old(self).wf(),
                old(self).col() + TAB_WIDTH * n <= usize::MAX,
                self.wf(),
                self.color() == old(self).color(),
                self.col() <= old(self).col() + TAB_WIDTH * i,
                (self.rows(), self.line(), self.col()) == text_write_bytes(
                    old(self).rows(),
                    old(self).line(),
                    old(self).col(),
                    old(self).color(),
                    bytes@.subrange(0, i as int),
                ),
        {
            let byte = bytes[i];
            proof {
                lemma_text_write_char_col_growth(
                    self.rows(),
                    self.line(),
                    self.col(),
                    self.color(),
                    sanitize_text_byte(byte) as char,
                );
            }
            if (0x20 <= byte && byte <= 0x7e) || byte == 0x0a || byte == 0x09 {
                self.write_char(byte as char);
                assert(byte as char as u8 == byte);
            } else {
                self.write_char(0xfeu8 as char);
            }
            proof {
                lemma_text_write_bytes_snoc(
                    old(self).rows(),
                    old(self).line(),
                    old(self).col(),
                    old(self).color(),
                    bytes@,
                    i as int,
                );
            }
        }
        assert(bytes@.subrange(0, n as int) =~= bytes@);
    }

    /// One cell of the grid, for inspection.
    pub fn char_at(&self, row: usize, col: usize) -> (r: ScreenChar)
        requires
            self.wf(),
            row < BUFFER_HEIGHT,
            col < BUFFER_WIDTH,
        ensures
            r == self.rows()[row as int][col as int],
    {
        self.get_cell(row, col)
    }
}

/// One step of the writer advances the column cursor by at most one tab
/// width.
proof fn lemma_text_write_char_col_growth(
    rows: Seq<Seq<ScreenChar>>,
    line: int,
    col: int,
    color: ColorCode,
    c: char,
)
    requires
        col >= 0,
    ensures
        text_write_char(rows, line, col, color, c).2 <= col + TAB_WIDTH,
{
    if c != '\n' && c == '\t' {
        assert(col % (TAB_WIDTH as int) >= 0);
    }
}

/// Writing one more byte extends the writer's steps by one.
proof fn lemma_text_write_bytes_snoc(
    rows: Seq<Seq<ScreenChar>>,
    line: int,
    col: int,
    color: ColorCode,
    bytes: Seq<u8>,
    i: int,
)
    requires
        0 <= i < bytes.len(),
    ensures
        ({
            let before = text_write_bytes(rows, line, col, color, bytes.subrange(0, i));
            text_write_bytes(rows, line, col, color, bytes.subrange(0, i + 1)) == text_write_char(
                before.0,
                before.1,
                before.2,
                color,
                sanitize_text_byte(bytes[i]) as char,
            )
        }),
    decreases i,
{
    if i == 0 {
        let one = bytes.subrange(0, 1);
        assert(bytes.subrange(0, 0) =~= Seq::<u8>::empty());
        assert(one.skip(1) =~= Seq::<u8>::empty());
        let stepped = text_write_char(rows, line, col, color, sanitize_text_byte(one[0]) as char);
        assert(text_write_bytes(rows, line, col, color, one) == text_write_bytes(
            stepped.0,
            stepped.1,
            stepped.2,
            color,
            one.skip(1),
        ));
    } else {
        let head = sanitize_text_byte(bytes[0]) as char;
        let stepped = text_write_char(rows, line, col, color, head);
        lemma_text_write_bytes_snoc(stepped.0, stepped.1, stepped.2, color, bytes.skip(1), i - 1);
        assert(bytes.skip(1).subrange(0, i - 1) =~= bytes.subrange(0, i).skip(1));
        assert(bytes.skip(1).subrange(0, i) =~= bytes.subrange(0, i + 1).skip(1));
        assert(bytes.skip(1)[i - 1] == bytes[i]);
        assert(bytes.subrange(0, i)[0] == bytes[0]);
        assert(bytes.subrange(0, i + 1)[0] == bytes[0]);
        assert(text_write_bytes(rows, line, col, color, bytes.subrange(0, i)) == text_write_bytes(
            stepped.0,
            stepped.1,
            stepped.2,
            color,
            bytes.subrange(0, i).skip(1),
        ));
        assert(text_write_bytes(rows, line, col, color, bytes.subrange(0, i + 1))
            == text_write_bytes(
            stepped.0,
            stepped.1,
            stepped.2,
            color,
            bytes.subrange(0, i + 1).skip(1),
        ));
    }
}

} // verus!
