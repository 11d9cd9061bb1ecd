//! The VGA text-mode console: a grid of character cells with one active row.
//!
//! Output always goes to the bottom row. A newline, or a character that
//! arrives after the bottom row has been filled, scrolls every row up by one
//! and blanks the bottom row in the current colors.

use vstd::prelude::*;
use vstd::string::StringSliceAdditionalSpecFns;
use volatile::Volatile;

verus! {

/// Number of text rows on the screen.
pub const BUFFER_HEIGHT: usize = 25;

/// Number of character cells in one row.
pub const BUFFER_WIDTH: usize = 80;

/// Physical address at which the hardware expects the character grid.
pub const VGA_BUFFER_ADDRESS: usize = 0xb8000;

/// The line feed byte.
pub const NEWLINE: u8 = 0x0a;

/// The glyph that blanks a cell.
pub const BLANK: u8 = 0x20;

/// The glyph shown in place of a byte that has no printable form.
pub const PLACEHOLDER: u8 = 0xfe;

/// The sixteen colors of the text-mode palette, in palette order.
#[derive(Debug, Clone, Copy, PartialEq, Eq, Structural)]
pub enum Color {
    Black,
    Blue,
    Green,
    Cyan,
    Red,
    Magenta,
    Brown,
    LightGray,
    DarkGray,
    LightBlue,
    LightGreen,
    LightCyan,
    LightRed,
    Pink,
    Yellow,
    White,
}

impl Color {
    /// The palette index of the color.
    pub open spec fn index(self) -> u8 {
        match self {
            Color::Black => 0,
            Color::Blue => 1,
            Color::Green => 2,
            Color::Cyan => 3,
            Color::Red => 4,
            Color::Magenta => 5,
            Color::Brown => 6,
            Color::LightGray => 7,
            Color::DarkGray => 8,
            Color::LightBlue => 9,
            Color::LightGreen => 10,
            Color::LightCyan => 11,
            Color::LightRed => 12,
            Color::Pink => 13,
            Color::Yellow => 14,
            Color::White => 15,
        }
    }

    /// The palette index of the color, as the hardware numbers it.
    pub fn palette_index(self) -> (index: u8)
        ensures
            index == self.index(),
            index < 16,
    {
        match self {
            Color::Black => 0,
            Color::Blue => 1,
            Color::Green => 2,
            Color::Cyan => 3,
            Color::Red => 4,
            Color::Magenta => 5,
            Color::Brown => 6,
            Color::LightGray => 7,
            Color::DarkGray => 8,
            Color::LightBlue => 9,
            Color::LightGreen => 10,
            Color::LightCyan => 11,
            Color::LightRed => 12,
            Color::Pink => 13,
            Color::Yellow => 14,
            Color::White => 15,
        }
    }
}

/// The attribute byte of a cell: background in the high nibble, foreground in
/// the low nibble.
#[derive(Debug, Clone, Copy, PartialEq, Eq, Structural)]
pub struct ColorCode(pub u8);

impl ColorCode {
    /// The attribute byte for a foreground on a background.
    pub open spec fn of(foreground: Color, background: Color) -> ColorCode {
        ColorCode((background.index() * 16 + foreground.index()) as u8)
    }

    /// Combines a foreground and a background color into one attribute byte.
    pub fn new(foreground: Color, background: Color) -> (code: ColorCode)
        ensures
            code == Self::of(foreground, background),
    {
        let fg: u8 = foreground.palette_index();
        let bg: u8 = background.palette_index();
        assert((bg << 4 | fg) == bg * 16 + fg) by (bit_vector)
            requires
                fg < 16,
                bg < 16,
        ;
        ColorCode(bg << 4 | fg)
    }
}

/// One cell of the grid: a glyph and the colors it is drawn in.
#[derive(Debug, Clone, Copy, PartialEq, Eq, Structural)]
pub struct ScreenChar {
    pub ascii_character: u8,
    pub color_code: ColorCode,
}

impl ScreenChar {
    /// The 16-bit word that stands for the cell in the grid: glyph in the low
    /// byte, attribute in the high byte.
    pub open spec fn word(self) -> u16 {
        (self.color_code.0 * 256 + self.ascii_character) as u16
    }

    /// The cell that a 16-bit grid word stands for.
    pub open spec fn from_word(word: u16) -> ScreenChar {
        ScreenChar { ascii_character: (word % 256) as u8, color_code: ColorCode((word / 256) as u8) }
    }

    /// Every cell is recovered from its own word.
    pub proof fn lemma_word_round_trip(self)
        ensures
            Self::from_word(self.word()) == self,
    {
    }

    /// Packs the cell into its grid word.
    pub fn encode(self) -> (word: u16)
        ensures
            word == self.word(),
    {
        let glyph: u8 = self.ascii_character;
        let attribute: u8 = self.color_code.0;
        assert(((attribute as u16) << 8 | (glyph as u16)) == attribute * 256 + glyph) by (bit_vector);
        (attribute as u16) << 8 | (glyph as u16)
    }

    /// Unpacks a grid word into the cell it stands for.
    pub fn decode(word: u16) -> (cell: ScreenChar)
        ensures
            cell == Self::from_word(word),
    {
        assert((word & 0xff) == word % 256) by (bit_vector);
        assert((word >> 8) == word / 256) by (bit_vector);
        ScreenChar { ascii_character: (word & 0xff) as u8, color_code: ColorCode((word >> 8) as u8) }
    }
}

/// The glyph that a byte other than a line feed is shown as: the byte itself
/// where it is printable ASCII, the placeholder otherwise.
pub open spec fn glyph_for(byte: u8) -> u8 {
    if 0x20 <= byte <= 0x7e {
        byte
    } else {
        PLACEHOLDER
    }
}

/// The glyphs that a sequence of bytes is shown as, one for each byte.
pub open spec fn glyphs(bytes: Seq<u8>) -> Seq<u8> {
    Seq::new(bytes.len(), |i: int| glyph_for(bytes[i]))
}

/// What the console shows and where it will write next.
pub struct ConsoleState {
    /// The cells of the grid, top row first.
    pub rows: Seq<Seq<ScreenChar>>,
    /// The cursor column on the bottom row.
    pub column: nat,
    /// Whether the bottom row is full, so that the next character scrolls
    /// before it is written.
    pub wrap_pending: bool,
    /// The colors of the cells written from now on.
    pub color_code: ColorCode,
}

impl ConsoleState {
    /// The grid has its fixed shape and the cursor lies on the bottom row.
    pub open spec fn wf(self) -> bool {
        &&& self.rows.len() == BUFFER_HEIGHT
        &&& forall|r: int| 0 <= r < BUFFER_HEIGHT ==> (#[trigger] self.rows[r]).len() == BUFFER_WIDTH
        &&& self.column < BUFFER_WIDTH
        &&& self.wrap_pending ==> self.column == 0
    }

    /// A row of blanks in the given colors.
    pub open spec fn blank_row(color_code: ColorCode) -> Seq<ScreenChar> {
        Seq::new(BUFFER_WIDTH as nat, |c: int| ScreenChar { ascii_character: BLANK, color_code })
    }

    /// One scroll: every row shows what the row below it showed, the bottom
    /// row is blank in the current colors, and the cursor is at column 0.
    pub open spec fn new_line(self) -> ConsoleState {
        ConsoleState {
            rows: Seq::new(
                BUFFER_HEIGHT as nat,
                |r: int|
                    if r + 1 < BUFFER_HEIGHT {
                        self.rows[r + 1]
                    } else {
                        Self::blank_row(self.color_code)
                    },
            ),
            column: 0,
            wrap_pending: false,
            color_code: self.color_code,
        }
    }

    /// A glyph is written at the cursor, after a scroll where the bottom row
    /// was full, and the cursor moves one cell on.
    pub open spec fn put(self, glyph: u8) -> ConsoleState {
        let start = if self.wrap_pending {
            self.new_line()
        } else {
            self
        };
        let bottom = BUFFER_HEIGHT - 1;
        let cell = ScreenChar { ascii_character: glyph, color_code: start.color_code };
        ConsoleState {
            rows: start.rows.update(bottom, start.rows[bottom].update(start.column as int, cell)),
            column: if start.column + 1 == BUFFER_WIDTH {
                0
            } else {
                start.column + 1
            },
            wrap_pending: start.column + 1 == BUFFER_WIDTH,
            color_code: start.color_code,
        }
    }

    /// The effect of one byte: a line feed scrolls, any other byte is written
    /// as its glyph.
    pub open spec fn write_byte(self, byte: u8) -> ConsoleState {
        if byte == NEWLINE {
            self.new_line()
        } else {
            self.put(glyph_for(byte))
        }
    }

    /// The effect of a sequence of bytes, first byte first.
    pub open spec fn write_bytes(self, bytes: Seq<u8>) -> ConsoleState
        decreases bytes.len(),
    {
        if bytes.len() == 0 {
            self
        } else {
            self.write_bytes(bytes.drop_last()).write_byte(bytes.last())
        }
    }

    /// Every row is blank in the current colors and the cursor is at column 0.
    pub open spec fn clear(self) -> ConsoleState {
        ConsoleState {
            rows: Seq::new(BUFFER_HEIGHT as nat, |r: int| Self::blank_row(self.color_code)),
            column: 0,
            wrap_pending: false,
            color_code: self.color_code,
        }
    }

    /// The number of cells of the bottom row that have been written since
    /// the last scroll.
    pub open spec fn filled(self) -> nat {
        if self.wrap_pending {
            BUFFER_WIDTH as nat
        } else {
            self.column
        }
    }

    /// The same screen with other colors for what is written next.
    pub open spec fn set_color(self, color_code: ColorCode) -> ConsoleState {
        ConsoleState { color_code, ..self }
    }

    /// Writing keeps the grid's shape and the cursor on the bottom row.
    pub proof fn lemma_write_byte_wf(self, byte: u8)
        requires
            self.wf(),
        ensures
            self.write_byte(byte).wf(),
    {
        let scrolled = self.new_line();
        assert(scrolled.wf());
    }

    /// Writing any bytes keeps the grid's shape and the cursor on the bottom
    /// row.
    pub proof fn lemma_write_bytes_wf(self, bytes: Seq<u8>)
        requires
            self.wf(),
        ensures
            self.write_bytes(bytes).wf(),
        decreases bytes.len(),
    {
        if bytes.len() > 0 {
            self.lemma_write_bytes_wf(bytes.drop_last());
            self.write_bytes(bytes.drop_last()).lemma_write_byte_wf(bytes.last());
        }
    }
}

/// The character grid as the hardware lays it out: one 16-bit word for each
/// cell, row after row, with the glyph in the word's low byte and the
/// attribute in its high byte.
pub type Buffer = [[Volatile<u16>; BUFFER_WIDTH]; BUFFER_HEIGHT];

/// `volatile::Volatile`, a cell whose reads and writes the compiler neither
/// drops nor reorders. Its inside is not read here.
#[verifier::external_type_specification]
#[verifier::external_body]
#[verifier::reject_recursive_types(T)]
pub struct ExVolatile<T: Copy>(Volatile<T>);

/// The word that a volatile cell holds.
pub uninterp spec fn cell_word(cell: Volatile<u16>) -> u16;

/// `Volatile::read`: returns a copy of the word the cell holds and leaves the
/// cell as it is. It never panics.
#[verifier::external_body]
fn read_cell(cell: &Volatile<u16>) -> (word: u16)
    ensures
        word == cell_word(*cell),
{
    cell.read()
}

/// `Volatile::write`: afterwards the cell holds the word given. It never
/// panics.
#[verifier::external_body]
fn write_cell(cell: &mut Volatile<u16>, word: u16)
    ensures
        cell_word(*final(cell)) == word,
    no_unwind
{
    cell.write(word)
}

/// The cells that a grid of words shows, top row first.
pub open spec fn buffer_rows(buffer: Buffer) -> Seq<Seq<ScreenChar>> {
    Seq::new(
        BUFFER_HEIGHT as nat,
        |r: int|
            Seq::new(BUFFER_WIDTH as nat, |c: int| ScreenChar::from_word(cell_word(buffer[r][c]))),
    )
}

/// The console writer: the grid it draws on, the cursor and the current
/// colors. Holding the writer mutably is holding the whole console, so a
/// scroll is never interleaved with another write.
pub struct Writer<'a> {
    column_position: usize,
    wrap_pending: bool,
    color_code: ColorCode,
    buffer: &'a mut Buffer,
}

impl<'a> View for Writer<'a> {
    type V = ConsoleState;

    closed spec fn view(&self) -> ConsoleState {
        ConsoleState {
            rows: buffer_rows(*self.buffer),
            column: self.column_position as nat,
            wrap_pending: self.wrap_pending,
            color_code: self.color_code,
        }
    }
}

impl<'a> Writer<'a> {
    #[verifier::type_invariant]
    spec fn cursor_on_row(self) -> bool {
        &&& self.column_position < BUFFER_WIDTH
        &&& self.wrap_pending ==> self.column_position == 0
    }

    spec fn cell(&self, r: int, c: int) -> ScreenChar {
        ScreenChar::from_word(cell_word(self.buffer[r][c]))
    }

    spec fn same_cursor_and_colors(&self, other: &Self) -> bool {
        &&& self.column_position == other.column_position
        &&& self.wrap_pending == other.wrap_pending
        &&& self.color_code == other.color_code
    }

    /// A writer on the given grid, with the cursor at column 0 and yellow on
    /// black as its colors. What the grid shows is left as it is.
    pub fn new(buffer: &'a mut Buffer) -> (writer: Writer<'a>)
        ensures
            writer@ == (ConsoleState {
                rows: buffer_rows(*old(buffer)),
                column: 0,
                wrap_pending: false,
                color_code: ColorCode::of(Color::Yellow, Color::Black),
            }),
            writer@.wf(),
    {
        Writer {
            column_position: 0,
            wrap_pending: false,
            color_code: ColorCode::new(Color::Yellow, Color::Black),
            buffer,
        }
    }

    proof fn lemma_view_wf(&self)
        requires
            self.cursor_on_row(),
        ensures
            self@.wf(),
    {
    }

    fn load(&self, row: usize, col: usize) -> (cell: ScreenChar)
        requires
            row < BUFFER_HEIGHT,
            col < BUFFER_WIDTH,
        ensures
            cell == self.cell(row as int, col as int),
    {
        ScreenChar::decode(read_cell(&self.buffer[row][col]))
    }

    fn store(&mut self, row: usize, col: usize, cell: ScreenChar)
        requires
            row < BUFFER_HEIGHT,
            col < BUFFER_WIDTH,
        ensures
            final(self).cell(row as int, col as int) == cell,
            forall|r: int, c: int|
                0 <= r < BUFFER_HEIGHT && 0 <= c < BUFFER_WIDTH && (r != row || c != col)
                    ==> final(self).cell(r, c) == old(self).cell(r, c),
            final(self).same_cursor_and_colors(old(self)),
    {
        proof {
            use_type_invariant(&*self);
            cell.lemma_word_round_trip();
        }
        write_cell(&mut self.buffer[row][col], cell.encode());
    }

    fn clear_row(&mut self, row: usize)
        requires
            row < BUFFER_HEIGHT,
        ensures
            forall|c: int|
                0 <= c < BUFFER_WIDTH ==> final(self).cell(row as int, c) == (ScreenChar {
                    ascii_character: BLANK,
                    color_code: old(self).color_code,
                }),
            forall|r: int, c: int|
                0 <= r < BUFFER_HEIGHT && 0 <= c < BUFFER_WIDTH && r != row ==> final(self).cell(r, c)
                    == old(self).cell(r, c),
            final(self).same_cursor_and_colors(old(self)),
    {
        let blank = ScreenChar { ascii_character: BLANK, color_code: self.color_code };
        let mut col: usize = 0;
        while col < BUFFER_WIDTH
            invariant
                row < BUFFER_HEIGHT,
                col <= BUFFER_WIDTH,
                blank == (ScreenChar { ascii_character: BLANK, color_code: old(self).color_code }),
                forall|c: int| 0 <= c < col ==> self.cell(row as int, c) == blank,
                forall|r: int, c: int|
                    0 <= r < BUFFER_HEIGHT && 0 <= c < BUFFER_WIDTH && r != row ==> self.cell(r, c)
                        == old(self).cell(r, c),
                self.same_cursor_and_colors(old(self)),
            decreases BUFFER_WIDTH - col,
        {
            let ghost before = *self;
            self.store(row, col, blank);
            assert forall|c: int| 0 <= c < col + 1 implies self.cell(row as int, c) == blank by {
                if c < col {
                    assert(self.cell(row as int, c) == before.cell(row as int, c));
                }
            }
            assert forall|r: int, c: int|
                0 <= r < BUFFER_HEIGHT && 0 <= c < BUFFER_WIDTH && r != row implies self.cell(r, c)
                == old(self).cell(r, c) by {
                assert(self.cell(r, c) == before.cell(r, c));
            }
            col += 1;
        }
    }

    fn new_line(&mut self)
        ensures
            final(self)@ == old(self)@.new_line(),
            final(self)@.wf(),
    {
        let mut row: usize = 1;
        while row < BUFFER_HEIGHT
            invariant
                1 <= row <= BUFFER_HEIGHT,
                self.same_cursor_and_colors(old(self)),
                forall|r: int, c: int|
                    0 <= r < row - 1 && 0 <= c < BUFFER_WIDTH ==> self.cell(r, c) == old(self).cell(
                        r + 1,
                        c,
                    ),
                forall|r: int, c: int|
                    row - 1 <= r < BUFFER_HEIGHT && 0 <= c < BUFFER_WIDTH ==> self.cell(r, c) == old(
                        self,
                    ).cell(r, c),
            decreases BUFFER_HEIGHT - row,
        {
            let above: usize = row - 1;
            let mut col: usize = 0;
            while col < BUFFER_WIDTH
                invariant
                    1 <= row < BUFFER_HEIGHT,
                    above == row - 1,
                    col <= BUFFER_WIDTH,
                    self.same_cursor_and_colors(old(self)),
                    forall|r: int, c: int|
                        0 <= r < above && 0 <= c < BUFFER_WIDTH ==> self.cell(r, c) == old(
                            self,
                        ).cell(r + 1, c),
                    forall|r: int, c: int|
                        row <= r < BUFFER_HEIGHT && 0 <= c < BUFFER_WIDTH ==> self.cell(r, c) == old(
                            self,
                        ).cell(r, c),
                    forall|c: int|
                        0 <= c < col ==> self.cell(above as int, c) == old(self).cell(
                            row as int,
                            c,
                        ),
                    forall|c: int|
                        col <= c < BUFFER_WIDTH ==> self.cell(above as int, c) == old(self).cell(
                            above as int,
                            c,
                        ),
                decreases BUFFER_WIDTH - col,
            {
                let ghost before = *self;
                let character = self.load(row, col);
                self.store(above, col, character);
                assert forall|r: int, c: int|
                    0 <= r < above && 0 <= c < BUFFER_WIDTH implies self.cell(r, c) == old(
                    self,
                ).cell(r + 1, c) by {
                    assert(self.cell(r, c) == before.cell(r, c));
                }
                assert forall|r: int, c: int|
                    row <= r < BUFFER_HEIGHT && 0 <= c < BUFFER_WIDTH implies self.cell(r, c) == old(
                    self,
                ).cell(r, c) by {
                    assert(self.cell(r, c) == before.cell(r, c));
                }
                assert forall|c: int| 0 <= c < col + 1 implies self.cell(above as int, c) == old(
                    self,
                ).cell(row as int, c) by {
                    if c < col {
                        assert(self.cell(above as int, c) == before.cell(above as int, c));
                    } else {
                        assert(before.cell(row as int, c) == old(self).cell(row as int, c));
                    }
                }
                assert forall|c: int| col + 1 <= c < BUFFER_WIDTH implies self.cell(above as int, c)
                    == old(self).cell(above as int, c) by {
                    assert(self.cell(above as int, c) == before.cell(above as int, c));
                }
                col += 1;
            }
            row += 1;
        }
        let ghost shifted = *self;
        self.clear_row(BUFFER_HEIGHT - 1);
        proof {
            use_type_invariant(&*self);
        }
        let ghost cleared = *self;
        self.wrap_pending = false;
        self.column_position = 0;
        proof {
            let expected = old(self)@.new_line();
            assert forall|r: int| 0 <= r < BUFFER_HEIGHT implies #[trigger] self@.rows[r]
                =~= expected.rows[r] by {
                assert forall|c: int| 0 <= c < BUFFER_WIDTH implies self@.rows[r][c]
                    == expected.rows[r][c] by {
                    assert(self@.rows[r][c] == self.cell(r, c));
                    assert(self.cell(r, c) == cleared.cell(r, c));
                    if r + 1 < BUFFER_HEIGHT {
                        assert(cleared.cell(r, c) == shifted.cell(r, c));
                        assert(shifted.cell(r, c) == old(self).cell(r + 1, c));
                        assert(old(self)@.rows[r + 1][c] == old(self).cell(r + 1, c));
                    } else {
                        assert(cleared.cell(BUFFER_HEIGHT - 1, c) == (ScreenChar {
                            ascii_character: BLANK,
                            color_code: shifted.color_code,
                        }));
                    }
                }
            }
            assert(self@.rows =~= expected.rows);
        }
    }

    fn put(&mut self, glyph: u8)
        ensures
            final(self)@ == old(self)@.put(glyph),
            final(self)@.wf(),
    {
        proof {
            use_type_invariant(&*self);
        }
        if self.wrap_pending {
            self.new_line();
        }
        proof {
            use_type_invariant(&*self);
        }
        let ghost start = *self;
        let row: usize = BUFFER_HEIGHT - 1;
        let col: usize = self.column_position;
        let cell = ScreenChar { ascii_character: glyph, color_code: self.color_code };
        self.store(row, col, cell);
        if col + 1 == BUFFER_WIDTH {
            self.column_position = 0;
            self.wrap_pending = true;
        } else {
            self.column_position = col + 1;
        }
        proof {
            let expected = old(self)@.put(glyph);
            assert(start@ == if old(self).wrap_pending {
                old(self)@.new_line()
            } else {
                old(self)@
            });
            assert forall|r: int| 0 <= r < BUFFER_HEIGHT implies #[trigger] self@.rows[r]
                =~= expected.rows[r] by {
                assert forall|c: int| 0 <= c < BUFFER_WIDTH implies self@.rows[r][c]
                    == expected.rows[r][c] by {
                    assert(self@.rows[r][c] == self.cell(r, c));
                    assert(start@.rows[r][c] == start.cell(r, c));
                }
            }
            assert(self@.rows =~= expected.rows);
        }
    }

    /// Writes one byte at the cursor: printable ASCII as it is, a line feed as
    /// a scroll, any other byte as the placeholder. Where the bottom row is
    /// full, the screen scrolls before the glyph is written.
    pub fn write_byte(&mut self, byte: u8)
        ensures
            final(self)@ == old(self)@.write_byte(byte),
            final(self)@.wf(),
    {
        if byte == NEWLINE {
            self.new_line();
        } else if 0x20 <= byte && byte <= 0x7e {
            self.put(byte);
        } else {
            self.put(PLACEHOLDER);
        }
    }

    /// Writes every byte of a slice, first byte first.
    pub fn write_bytes(&mut self, bytes: &[u8])
        ensures
            final(self)@ == old(self)@.write_bytes(bytes@),
            final(self)@.wf(),
    {
        proof {
            use_type_invariant(&*self);
            self.lemma_view_wf();
            assert(bytes@.take(0) =~= Seq::<u8>::empty());
        }
        let mut i: usize = 0;
        while i < bytes.len()
            invariant
                i <= bytes.len(),
                self@ == old(self)@.write_bytes(bytes@.take(i as int)),
                self@.wf(),
            decreases bytes.len() - i,
        {
            proof {
                let done = bytes@.take(i + 1);
                assert(done.drop_last() =~= bytes@.take(i as int));
                assert(done.last() == bytes@[i as int]);
            }
            self.write_byte(bytes[i]);
            i += 1;
        }
        proof {
            assert(bytes@.take(bytes@.len() as int) =~= bytes@);
        }
    }

    /// Writes a string, byte by byte of its UTF-8 form: a character outside
    /// ASCII shows as one placeholder for each of its bytes.
    pub fn write_string(&mut self, s: &str)
        ensures
            final(self)@ == old(self)@.write_bytes(s.spec_bytes()),
            final(self)@.wf(),
    {
        self.write_bytes(s.as_bytes());
    }

    /// Sets the colors of the cells written from now on. What is on the
    /// screen keeps its colors.
    pub fn set_color(&mut self, foreground: Color, background: Color)
        ensures
            final(self)@ == old(self)@.set_color(ColorCode::of(foreground, background)),
            final(self)@.wf(),
    {
        proof {
            use_type_invariant(&*self);
            self.lemma_view_wf();
        }
        self.color_code = ColorCode::new(foreground, background);
    }

    /// The cursor column on the bottom row.
    pub fn column(&self) -> (column: usize)
        ensures
            column == self@.column,
            column < BUFFER_WIDTH,
    {
        proof {
            use_type_invariant(self);
        }
        self.column_position
    }

    /// Whether the bottom row is full, so that the next character scrolls
    /// first.
    pub fn wrap_pending(&self) -> (pending: bool)
        ensures
            pending == self@.wrap_pending,
    {
        self.wrap_pending
    }

    /// The colors of the cells written from now on.
    pub fn color_code(&self) -> (code: ColorCode)
        ensures
            code == self@.color_code,
    {
        self.color_code
    }

    /// The cell shown at a row and a column, if the grid has such a cell.
    pub fn char_at(&self, row: usize, col: usize) -> (cell: Option<ScreenChar>)
        ensures
            cell == if row < BUFFER_HEIGHT && col < BUFFER_WIDTH {
                Some(self@.rows[row as int][col as int])
            } else {
                None
            },
    {
        if row < BUFFER_HEIGHT && col < BUFFER_WIDTH {
            Some(self.load(row, col))
        } else {
            None
        }
    }
}

/// Sets the foreground and background colors for what is written next.
pub fn set_text_color(writer: &mut Writer, foreground: Color, background: Color)
    ensures
        final(writer)@ == old(writer)@.set_color(ColorCode::of(foreground, background)),
        final(writer)@.wf(),
{
    writer.set_color(foreground, background);
}

/// Writes a message given as bytes, whether or not they are valid UTF-8: each
/// byte is shown as its glyph.
pub fn print_message(writer: &mut Writer, message: &[u8])
    ensures
        final(writer)@ == old(writer)@.write_bytes(message@),
        final(writer)@.wf(),
{
    writer.write_bytes(message);
}

/// Blanks every row in the current colors and puts the cursor at column 0.
pub fn clear_screen(writer: &mut Writer)
    ensures
        final(writer)@ == old(writer)@.clear(),
        final(writer)@.wf(),
{
    let mut row: usize = 0;
    while row < BUFFER_HEIGHT
        invariant
            row <= BUFFER_HEIGHT,
            writer.same_cursor_and_colors(old(writer)),
            forall|r: int, c: int|
                0 <= r < row && 0 <= c < BUFFER_WIDTH ==> writer.cell(r, c) == (ScreenChar {
                    ascii_character: BLANK,
                    color_code: old(writer).color_code,
                }),
        decreases BUFFER_HEIGHT - row,
    {
        let ghost before = *writer;
        writer.clear_row(row);
        assert forall|r: int, c: int| 0 <= r < row + 1 && 0 <= c < BUFFER_WIDTH implies writer.cell(
            r,
            c,
        ) == (ScreenChar { ascii_character: BLANK, color_code: old(writer).color_code }) by {
            if r < row {
                assert(writer.cell(r, c) == before.cell(r, c));
            }
        }
        row += 1;
    }
    proof {
        use_type_invariant(&*writer);
    }
    let ghost cleared = *writer;
    writer.wrap_pending = false;
    writer.column_position = 0;
    proof {
        let expected = old(writer)@.clear();
        assert forall|r: int| 0 <= r < BUFFER_HEIGHT implies #[trigger] writer@.rows[r]
            =~= expected.rows[r] by {
            assert forall|c: int| 0 <= c < BUFFER_WIDTH implies writer@.rows[r][c]
                == expected.rows[r][c] by {
                assert(writer@.rows[r][c] == writer.cell(r, c));
                assert(writer.cell(r, c) == cleared.cell(r, c));
            }
        }
        assert(writer@.rows =~= expected.rows);
    }
}

} // verus!
