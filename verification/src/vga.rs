//! VGA text-mode console (80×25 colour cells).
//!
//! [`Writer`] keeps the contents of the text buffer and the cursor column,
//! and implements the console's behaviour: characters are written on the
//! bottom row, a newline or a full row scrolls the screen up by one row, and
//! bytes outside printable ASCII show as `■`.  The kernel copies the cells
//! to the memory-mapped buffer at physical address 0xB8000.
use vstd::prelude::*;
use vstd::string::StringSliceAdditionalSpecFns;

verus! {

/// VGA colour.
#[derive(Debug, Clone, Copy, PartialEq, Eq, Structural)]
pub enum Color {
    Black,
    Blue,
    Green,
    Cyan,
    Red,
    Magenta,
    Brown,
    LightGray,
    DarkGray,
    LightBlue,
    LightGreen,
    LightCyan,
    LightRed,
    Pink,
    Yellow,
    White,
}

/// The 4-bit VGA number of each colour.
pub open spec fn color_number(c: Color) -> u8 {
    match c {
        Color::Black => 0,
        Color::Blue => 1,
        Color::Green => 2,
        Color::Cyan => 3,
        Color::Red => 4,
        Color::Magenta => 5,
        Color::Brown => 6,
        Color::LightGray => 7,
        Color::DarkGray => 8,
        Color::LightBlue => 9,
        Color::LightGreen => 10,
        Color::LightCyan => 11,
        Color::LightRed => 12,
        Color::Pink => 13,
        Color::Yellow => 14,
        Color::White => 15,
    }
}

impl Color {
    /// The 4-bit VGA number of this colour.
    pub fn number(self) -> (n: u8)
        ensures
            n == color_number(self),
    {
        match self {
            Color::Black => 0,
            Color::Blue => 1,
            Color::Green => 2,
            Color::Cyan => 3,
            Color::Red => 4,
            Color::Magenta => 5,
            Color::Brown => 6,
            Color::LightGray => 7,
            Color::DarkGray => 8,
            Color::LightBlue => 9,
            Color::LightGreen => 10,
            Color::LightCyan => 11,
            Color::LightRed => 12,
            Color::Pink => 13,
            Color::Yellow => 14,
            Color::White => 15,
        }
    }
}

/// VGA colour byte (foreground | background << 4).
#[derive(Debug, Clone, Copy, PartialEq, Eq, Structural)]
pub struct ColorCode(pub u8);

impl ColorCode {
    /// The attribute byte for `fg` on `bg`: background in the high nibble,
    /// foreground in the low one.
    pub fn new(fg: Color, bg: Color) -> (c: Self)
        ensures
            c.0 == color_number(bg) * 16 + color_number(fg),
    {
        let f = fg.number();
        let b = bg.number();
        assert((b << 4u8) | f == b * 16 + f) by (bit_vector)
            requires
                b < 16,
                f < 16,
        ;
        ColorCode((b << 4u8) | f)
    }
}

/// One cell of the text buffer: a code-page-437 byte and its colours.
#[derive(Debug, Clone, Copy, PartialEq, Eq, Structural)]
pub struct ScreenChar {
    pub ascii: u8,
    pub color: ColorCode,
}

/// Rows of the text buffer.
pub const BUFFER_HEIGHT: usize = 25;
/// Columns of the text buffer.
pub const BUFFER_WIDTH: usize = 80;
/// Cells of the text buffer.
pub const BUFFER_CELLS: usize = BUFFER_HEIGHT * BUFFER_WIDTH;

/// The cells of the text buffer, row after row.
struct Buffer {
    chars: Vec<ScreenChar>,
}

impl Buffer {
    /// Read a single screen character.
    fn read(&self, row: usize, col: usize) -> (c: ScreenChar)
        requires
            self.chars@.len() == BUFFER_CELLS,
            row < BUFFER_HEIGHT,
            col < BUFFER_WIDTH,
        ensures
            c == self.chars@[row * BUFFER_WIDTH + col],
    {
        self.chars[row * BUFFER_WIDTH + col]
    }

    /// Write a single screen character.
    fn write(&mut self, row: usize, col: usize, c: ScreenChar)
        requires
            old(self).chars@.len() == BUFFER_CELLS,
            row < BUFFER_HEIGHT,
            col < BUFFER_WIDTH,
        ensures
            final(self).chars@ == old(self).chars@.update(row * BUFFER_WIDTH + col, c),
    {
        self.chars[row * BUFFER_WIDTH + col] = c;
    }
}

// ── Model ────────────────────────────────────────────────────────────────────

/// A blank cell in colour `color`.
pub open spec fn blank(color: ColorCode) -> ScreenChar {
    ScreenChar { ascii: 0x20, color }
}

/// The screen scrolled up by one row: each row takes the contents of the row
/// below it, and the bottom row is blank.
pub open spec fn scrolled(screen: Seq<ScreenChar>, color: ColorCode) -> Seq<ScreenChar> {
    Seq::new(
        BUFFER_CELLS as nat,
        |i: int|
            if i < (BUFFER_HEIGHT - 1) * BUFFER_WIDTH {
                screen[i + BUFFER_WIDTH]
            } else {
                blank(color)
            },
    )
}

/// Writing one byte: a newline scrolls and returns to column 0; any other
/// byte goes on the bottom row at the cursor, after scrolling if the row is
/// full, and the cursor moves right.
pub open spec fn write_byte_outcome(screen: Seq<ScreenChar>, col: int, color: ColorCode, byte: u8) -> (
    Seq<ScreenChar>,
    int,
) {
    if byte == 0x0a {
        (scrolled(screen, color), 0)
    } else {
        let (s, c) = if col >= BUFFER_WIDTH {
            (scrolled(screen, color), 0)
        } else {
            (screen, col)
        };
        (s.update((BUFFER_HEIGHT - 1) * BUFFER_WIDTH + c, ScreenChar { ascii: byte, color }), c + 1)
    }
}

/// The byte shown for `byte`: printable ASCII and newline as they are, any
/// other byte as `■` (0xfe).
pub open spec fn shown_byte(byte: u8) -> u8 {
    if (0x20 <= byte && byte <= 0x7e) || byte == 0x0a {
        byte
    } else {
        0xfe
    }
}

/// Writing the bytes `bytes` one after the other, each as it is shown.
pub open spec fn write_bytes_outcome(
    screen: Seq<ScreenChar>,
    col: int,
    color: ColorCode,
    bytes: Seq<u8>,
) -> (Seq<ScreenChar>, int)
    decreases bytes.len(),
{
    if bytes.len() == 0 {
        (screen, col)
    } else {
        let (s, c) = write_bytes_outcome(screen, col, color, bytes.drop_last());
        write_byte_outcome(s, c, color, shown_byte(bytes.last()))
    }
}

/// Writing `x` and then `y` leaves the screen as writing `x + y` at once:
/// a string can be written in pieces.
pub proof fn lemma_write_bytes_concat(
    screen: Seq<ScreenChar>,
    col: int,
    color: ColorCode,
    x: Seq<u8>,
    y: Seq<u8>,
)
    ensures
        write_bytes_outcome(screen, col, color, x + y) == write_bytes_outcome(
            write_bytes_outcome(screen, col, color, x).0,
            write_bytes_outcome(screen, col, color, x).1,
            color,
            y,
        ),
    decreases y.len(),
{
    if y.len() == 0 {
        assert(x + y =~= x);
    } else {
        lemma_write_bytes_concat(screen, col, color, x, y.drop_last());
        assert((x + y).drop_last() =~= x + y.drop_last());
        assert((x + y).last() == y.last());
    }
}

/// Printable ASCII (space to `~`) that fits on the rest of the bottom row
/// lands there as it is: after writing `bytes` from column `col`, the cells
/// `col..col + len` of the bottom row hold exactly those bytes in the
/// writer's colours, the cursor stands just past them, and every other cell
/// is unchanged.
pub proof fn lemma_printable_text_written_as_is(
    screen: Seq<ScreenChar>,
    col: int,
    color: ColorCode,
    bytes: Seq<u8>,
)
    requires
        screen.len() == BUFFER_CELLS,
        0 <= col,
        col + bytes.len() <= BUFFER_WIDTH,
        forall|i: int| 0 <= i < bytes.len() ==> 0x20 <= #[trigger] bytes[i] <= 0x7e,
    ensures
        ({
            let (s, c) = write_bytes_outcome(screen, col, color, bytes);
            &&& c == col + bytes.len()
            &&& s.len() == BUFFER_CELLS
            &&& forall|i: int|
                0 <= i < bytes.len() ==> #[trigger] s[(BUFFER_HEIGHT - 1) * BUFFER_WIDTH + col + i]
                    == (ScreenChar { ascii: bytes[i], color })
            &&& forall|k: int|
                0 <= k < BUFFER_CELLS && !((BUFFER_HEIGHT - 1) * BUFFER_WIDTH + col <= k < (BUFFER_HEIGHT
                    - 1) * BUFFER_WIDTH + col + bytes.len()) ==> #[trigger] s[k] == screen[k]
        }),
    decreases bytes.len(),
{
    if bytes.len() > 0 {
        let init = bytes.drop_last();
        lemma_printable_text_written_as_is(screen, col, color, init);
        let (s0, c0) = write_bytes_outcome(screen, col, color, init);
        let b = bytes.last();
        assert(b == bytes[bytes.len() - 1]);
        assert(0x20 <= b <= 0x7e);
        let (s, c) = write_bytes_outcome(screen, col, color, bytes);
        assert(s == s0.update((BUFFER_HEIGHT - 1) * BUFFER_WIDTH + c0, ScreenChar { ascii: b, color }));
        assert forall|i: int| 0 <= i < bytes.len() implies #[trigger] s[(BUFFER_HEIGHT - 1) * BUFFER_WIDTH
            + col + i] == ScreenChar { ascii: bytes[i], color } by {
            if i < init.len() {
                assert(init[i] == bytes[i]);
                assert(s0[(BUFFER_HEIGHT - 1) * BUFFER_WIDTH + col + i] == ScreenChar { ascii: init[i], color });
            }
        }
    }
}

/// A byte outside printable ASCII, other than newline, is shown as `■`
/// (0xfe) at the cursor of a bottom row with room left.
pub proof fn lemma_non_printable_shown_as_block(
    screen: Seq<ScreenChar>,
    col: int,
    color: ColorCode,
    b: u8,
)
    requires
        screen.len() == BUFFER_CELLS,
        0 <= col < BUFFER_WIDTH,
        !(0x20 <= b <= 0x7e),
        b != 0x0a,
    ensures
        write_bytes_outcome(screen, col, color, seq![b]).0[(BUFFER_HEIGHT - 1) * BUFFER_WIDTH + col]
            == (ScreenChar { ascii: 0xfe, color }),
        write_bytes_outcome(screen, col, color, seq![b]).1 == col + 1,
{
    let one = seq![b];
    assert(one.drop_last() =~= Seq::<u8>::empty());
    assert(write_bytes_outcome(screen, col, color, one.drop_last()) == (screen, col));
    assert(one.last() == b);
    assert(shown_byte(b) == 0xfe);
    assert(write_bytes_outcome(screen, col, color, one) == write_byte_outcome(screen, col, color, 0xfe));
}

/// The colour byte carries both colours: the foreground in its low nibble and
/// the background in its high nibble.
pub proof fn lemma_color_code_nibbles(fg: Color, bg: Color)
    ensures
        (color_number(bg) * 16 + color_number(fg)) % 16 == color_number(fg),
        (color_number(bg) * 16 + color_number(fg)) / 16 == color_number(bg),
        color_number(bg) * 16 + color_number(fg) <= 0xff,
{
}

// ── Writer ───────────────────────────────────────────────────────────────────

/// Stateful writer that maintains the current cursor row/column.
pub struct Writer {
    col: usize,
    color: ColorCode,
    buffer: Buffer,
}

impl Writer {
    /// The cells of the screen, row after row.
    pub closed spec fn screen(&self) -> Seq<ScreenChar> {
        self.buffer.chars@
    }

    /// The cursor column on the bottom row.
    pub closed spec fn column(&self) -> int {
        self.col as int
    }

    /// The colours the writer writes in.
    pub closed spec fn color_code(&self) -> ColorCode {
        self.color
    }

    /// The screen has its full size and the cursor is within the row or just
    /// past its end.
    pub open spec fn wf(&self) -> bool {
        &&& self.screen().len() == BUFFER_CELLS
        &&& 0 <= self.column() <= BUFFER_WIDTH
    }

    /// A writer in colours `fg` on `bg` over a screen that currently shows
    /// `screen`, with the cursor at the start of the bottom row.
    pub fn new(fg: Color, bg: Color, screen: Vec<ScreenChar>) -> (w: Self)
        requires
            screen@.len() == BUFFER_CELLS,
        ensures
            w.wf(),
            w.screen() == screen@,
            w.column() == 0,
            w.color_code().0 == color_number(bg) * 16 + color_number(fg),
    {
        Writer { col: 0, color: ColorCode::new(fg, bg), buffer: Buffer { chars: screen } }
    }

    /// The cell at `row`, `col`.
    pub fn screen_char(&self, row: usize, col: usize) -> (c: ScreenChar)
        requires
            self.wf(),
            row < BUFFER_HEIGHT,
            col < BUFFER_WIDTH,
        ensures
            c == self.screen()[row * BUFFER_WIDTH + col],
    {
        self.buffer.read(row, col)
    }

    /// Write one byte: a newline starts a new line; any other byte goes at
    /// the cursor on the bottom row, on a new line when the row is full.
    pub fn write_byte(&mut self, byte: u8)
        requires
            old(self).wf(),
        ensures
            final(self).wf(),
            final(self).color_code() == old(self).color_code(),
            (final(self).screen(), final(self).column()) == write_byte_outcome(
                old(self).screen(),
                old(self).column(),
                old(self).color_code(),
                byte,
            ),
    {
        match byte {
            0x0a => self.new_line(),  // b'\n'
            byte => {
                if self.col >= BUFFER_WIDTH {
                    self.new_line();
                }
                let row = BUFFER_HEIGHT - 1;
                let col = self.col;
                let color = self.color;
                self.buffer.write(row, col, ScreenChar { ascii: byte, color });
                self.col += 1;
            },
        }
    }

    /// Write the UTF-8 bytes of `s`, showing bytes outside printable ASCII
    /// (other than newline) as `■`.
    pub fn write_string(&mut self, s: &str)
        requires
            old(self).wf(),
        ensures
            final(self).wf(),
            final(self).color_code() == old(self).color_code(),
            (final(self).screen(), final(self).column()) == write_bytes_outcome(
                old(self).screen(),
                old(self).column(),
                old(self).color_code(),
                s.spec_bytes(),
            ),
    {
        let bytes = s.as_bytes();
        let mut i: usize = 0;
        while i < bytes.len()
            invariant
                self.wf(),
                i <= bytes@.len(),
                bytes@ == s.spec_bytes(),
                self.color_code() == old(self).color_code(),
                (self.screen(), self.column()) == write_bytes_outcome(
                    old(self).screen(),
                    old(self).column(),
                    old(self).color_code(),
                    bytes@.take(i as int),
                ),
            decreases bytes@.len() - i,
        {
            let byte = bytes[i];
            proof {
                assert(bytes@.take(i + 1).drop_last() =~= bytes@.take(i as int));
            }
            if (0x20 <= byte && byte <= 0x7e) || byte == 0x0a {
                self.write_byte(byte);
            } else {
                // Non-printable: shown as '■'.
                self.write_byte(0xfe);
            }
            i += 1;
        }
        proof {
            assert(bytes@.take(bytes@.len() as int) =~= bytes@);
        }
    }

    /// Scroll the screen up by one row and return to column 0.
    fn new_line(&mut self)
        requires
            old(self).wf(),
        ensures
            final(self).wf(),
            final(self).color_code() == old(self).color_code(),
            final(self).screen() == scrolled(old(self).screen(), old(self).color_code()),
            final(self).column() == 0,
    {
        let mut row: usize = 1;
        while row < BUFFER_HEIGHT
            invariant
                1 <= row <= BUFFER_HEIGHT,
                self.buffer.chars@.len() == BUFFER_CELLS,
                self.color == old(self).color,
                self.col == old(self).col,
                forall|k: int|
                    0 <= k < (row - 1) * BUFFER_WIDTH ==> #[trigger] self.buffer.chars@[k]
                        == old(self).buffer.chars@[k + BUFFER_WIDTH],
                forall|k: int|
                    (row - 1) * BUFFER_WIDTH <= k < BUFFER_CELLS ==> #[trigger] self.buffer.chars@[k]
                        == old(self).buffer.chars@[k],
            decreases BUFFER_HEIGHT - row,
        {
            let mut col: usize = 0;
            while col < BUFFER_WIDTH
                invariant
                    1 <= row < BUFFER_HEIGHT,
                    col <= BUFFER_WIDTH,
                    self.buffer.chars@.len() == BUFFER_CELLS,
                    self.color == old(self).color,
                    self.col == old(self).col,
                    forall|k: int|
                        0 <= k < (row - 1) * BUFFER_WIDTH + col ==> #[trigger] self.buffer.chars@[k]
                            == old(self).buffer.chars@[k + BUFFER_WIDTH],
                    forall|k: int|
                        (row - 1) * BUFFER_WIDTH + col <= k < BUFFER_CELLS ==> #[trigger] self.buffer.chars@[k]
                            == old(self).buffer.chars@[k],
                decreases BUFFER_WIDTH - col,
            {
                let ch = self.buffer.read(row, col);
                self.buffer.write(row - 1, col, ch);
                col += 1;
            }
            row += 1;
        }
        self.clear_row(BUFFER_HEIGHT - 1);
        self.col = 0;
        proof {
            assert(self.buffer.chars@ =~= scrolled(old(self).buffer.chars@, old(self).color));
        }
    }

    /// Blank every cell of `row`.
    fn clear_row(&mut self, row: usize)
        requires
            old(self).buffer.chars@.len() == BUFFER_CELLS,
            row < BUFFER_HEIGHT,
        ensures
            final(self).buffer.chars@.len() == BUFFER_CELLS,
            final(self).color == old(self).color,
            final(self).col == old(self).col,
            forall|k: int|
                0 <= k < BUFFER_CELLS ==> #[trigger] final(self).buffer.chars@[k] == if row
                    * BUFFER_WIDTH <= k < row * BUFFER_WIDTH + BUFFER_WIDTH {
                    blank(old(self).color)
                } else {
                    old(self).buffer.chars@[k]
                },
    {
        let blank = ScreenChar { ascii: 0x20, color: self.color };
        let mut col: usize = 0;
        while col < BUFFER_WIDTH
            invariant
                row < BUFFER_HEIGHT,
                col <= BUFFER_WIDTH,
                blank == crate::vga::blank(old(self).color),
                self.buffer.chars@.len() == BUFFER_CELLS,
                self.color == old(self).color,
                self.col == old(self).col,
                forall|k: int|
                    0 <= k < BUFFER_CELLS ==> #[trigger] self.buffer.chars@[k] == if row
                        * BUFFER_WIDTH <= k < row * BUFFER_WIDTH + col {
                        crate::vga::blank(old(self).color)
                    } else {
                        old(self).buffer.chars@[k]
                    },
            decreases BUFFER_WIDTH - col,
        {
            self.buffer.write(row, col, blank);
            col += 1;
        }
    }
}

} // verus!
