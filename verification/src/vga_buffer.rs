//! The text screen: 25 rows of 80 characters, each with a colour, and a writer
//! that fills them byte by byte, scrolls, and takes its colours from escape
//! sequences in the text. The screen is held here as a value; showing it is
//! left to whoever owns the video memory.

use vstd::prelude::*;
use vstd::string::StringSliceAdditionalSpecFns;
use crate::text::{decimal, decimal_digits, digit, push_all};

verus! {

/// Characters in a row of the screen.
pub const SCREEN_WIDTH: usize = 80;

/// Rows of the screen.
pub const SCREEN_HEIGHT: usize = 25;

/// The sixteen colours of the text mode.
#[derive(Debug, Clone, Copy, PartialEq, Eq, Structural)]
#[allow(non_camel_case_types)]
pub enum Color {
    BLACK,
    BLUE,
    GREEN,
    CYAN,
    RED,
    MAGENTA,
    BROWN,
    LIGHT_GRAY,
    DARK_GRAY,
    LIGHT_BLUE,
    LIGHT_GREEN,
    LIGHT_CYAN,
    LIGHT_RED,
    PINK,
    YELLOW,
    WHITE,
}

impl Color {
    /// The number of the colour, 0 to 15.
    pub open spec fn spec_code(self) -> u8 {
        match self {
            Color::BLACK => 0,
            Color::BLUE => 1,
            Color::GREEN => 2,
            Color::CYAN => 3,
            Color::RED => 4,
            Color::MAGENTA => 5,
            Color::BROWN => 6,
            Color::LIGHT_GRAY => 7,
            Color::DARK_GRAY => 8,
            Color::LIGHT_BLUE => 9,
            Color::LIGHT_GREEN => 10,
            Color::LIGHT_CYAN => 11,
            Color::LIGHT_RED => 12,
            Color::PINK => 13,
            Color::YELLOW => 14,
            Color::WHITE => 15,
        }
    }

    /// The number of the colour, 0 to 15.
    pub fn code(self) -> (code: u8)
        ensures
            code == self.spec_code(),
            code <= 15,
    {
        match self {
            Color::BLACK => 0,
            Color::BLUE => 1,
            Color::GREEN => 2,
            Color::CYAN => 3,
            Color::RED => 4,
            Color::MAGENTA => 5,
            Color::BROWN => 6,
            Color::LIGHT_GRAY => 7,
            Color::DARK_GRAY => 8,
            Color::LIGHT_BLUE => 9,
            Color::LIGHT_GREEN => 10,
            Color::LIGHT_CYAN => 11,
            Color::LIGHT_RED => 12,
            Color::PINK => 13,
            Color::YELLOW => 14,
            Color::WHITE => 15,
        }
    }

    /// The colour with the number `val`, for the numbers up to 15.
    pub fn from_u8(val: u8) -> (color: Option<Color>)
        ensures
            color is Some <==> val <= 15,
            color matches Some(c) ==> c.spec_code() == val,
    {
        match val {
            0 => Some(Color::BLACK),
            1 => Some(Color::BLUE),
            2 => Some(Color::GREEN),
            3 => Some(Color::CYAN),
            4 => Some(Color::RED),
            5 => Some(Color::MAGENTA),
            6 => Some(Color::BROWN),
            7 => Some(Color::LIGHT_GRAY),
            8 => Some(Color::DARK_GRAY),
            9 => Some(Color::LIGHT_BLUE),
            10 => Some(Color::LIGHT_GREEN),
            11 => Some(Color::LIGHT_CYAN),
            12 => Some(Color::LIGHT_RED),
            13 => Some(Color::PINK),
            14 => Some(Color::YELLOW),
            15 => Some(Color::WHITE),
            _ => None,
        }
    }
}

/// The escape sequence that names one colour: a backslash, the number, a
/// semicolon.
pub open spec fn escape_of(number: u8) -> Seq<u8> {
    seq![ESCAPE] + decimal(number as nat) + seq![0x3bu8]
}

/// The escape sequence that names two colours: a backslash, the first
/// number, a comma, the second number, a semicolon.
pub open spec fn escape_of_two(first: u8, second: u8) -> Seq<u8> {
    seq![ESCAPE] + decimal(first as nat) + seq![0x2cu8] + decimal(second as nat) + seq![0x3bu8]
}

impl Color {
    /// The text that, written to the screen, makes this the colour of what is
    /// written from then on, on black.
    pub fn escape(self) -> (text: Vec<u8>)
        ensures
            text@ == escape_of(self.spec_code()),
    {
        let mut text = Vec::new();
        text.push(ESCAPE);
        let digits = decimal_digits(self.code() as u64);
        push_all(&mut text, digits.as_slice());
        text.push(0x3b);
        assert(text@ =~= escape_of(self.spec_code()));
        text
    }
}

/// A colour for the character and one for what is behind it: the first in the
/// lower four bits, the second in the upper four.
#[derive(Debug, Clone, Copy, PartialEq, Eq, Structural)]
pub struct ColorCode(pub u8);

/// The value of the colour code made of the two colours.
pub open spec fn color_code(foreground: Color, background: Color) -> ColorCode {
    ColorCode((background.spec_code() * 16 + foreground.spec_code()) as u8)
}

impl ColorCode {
    /// The code for characters in the colour `foreground` on `background`.
    pub fn new(foreground: Color, background: Color) -> (code: ColorCode)
        ensures
            code == color_code(foreground, background),
    {
        let back = background.code();
        let front = foreground.code();
        assert(back << 4 | front == back * 16 + front) by (bit_vector)
            requires
                back <= 15,
                front <= 15,
        ;
        ColorCode(back << 4 | front)
    }

    /// The colour code as an escape sequence: the number in the upper four
    /// bits first, then the number in the lower four.
    pub fn escape(self) -> (text: Vec<u8>)
        ensures
            text@ == escape_of_two(self.0 / 16, self.0 % 16),
    {
        let code = self.0;
        assert(code >> 4 == code / 16 && code & 0xf == code % 16) by (bit_vector);
        let mut text = Vec::new();
        text.push(ESCAPE);
        let upper = decimal_digits((self.0 >> 4) as u64);
        push_all(&mut text, upper.as_slice());
        text.push(0x2c);
        let lower = decimal_digits((self.0 & 0xf) as u64);
        push_all(&mut text, lower.as_slice());
        text.push(0x3b);
        assert(text@ =~= escape_of_two(self.0 / 16, self.0 % 16));
        text
    }
}

/// A character on the screen.
#[derive(Debug, Clone, Copy, PartialEq, Eq, Structural)]
pub struct ScreenChar {
    pub character: u8,
    pub color_code: ColorCode,
}

impl ScreenChar {
    /// The two bytes of the character in the video memory, as one number:
    /// the character in the lower byte, its colours in the upper.
    pub fn cell(&self) -> (cell: u16)
        ensures
            cell == self.color_code.0 * 0x100 + self.character,
    {
        self.color_code.0 as u16 * 0x100 + self.character as u16
    }
}

/// The characters on the screen, row by row.
pub struct Buffer {
    pub chars: [[ScreenChar; 80]; 25],
}

/// The byte that starts an escape sequence.
pub const ESCAPE: u8 = 0x5c;

/// What a writer holds.
pub struct WriterState {
    /// The row that is written to.
    pub row: int,
    /// The column that the next character goes to.
    pub column: int,
    /// The colour of what is written.
    pub color: ColorCode,
    /// How many rows have left the screen at the top, counted modulo 2^32.
    pub scroll_count: u32,
    /// Where in an escape sequence the writer is: 0 outside of one, 1 in
    /// the first number, 2 in the second.
    pub step: u8,
    /// The first number of the escape sequence, as far as it has been read.
    pub first: u8,
    /// The second number of the escape sequence, as far as it has been read.
    pub second: u8,
    /// The characters on the screen.
    pub rows: Seq<Seq<ScreenChar>>,
}

/// A row of blanks in the colour `color`.
pub open spec fn blank_row(color: ColorCode) -> Seq<ScreenChar> {
    Seq::new(SCREEN_WIDTH as nat, |k: int| ScreenChar { character: 0x20, color_code: color })
}

/// True if `byte` is a decimal digit.
pub open spec fn is_digit(byte: u8) -> bool {
    0x30 <= byte <= 0x39
}

/// The number read so far with one more digit; at 26 and above the number is
/// given up, and the value is reduced modulo 256.
pub open spec fn with_digit(number: u8, digit: u8) -> u8 {
    ((number * 10 + (digit - 0x30)) % 256) as u8
}

impl WriterState {
    /// True if the cursor is on the screen and the screen has its 25 rows of
    /// 80 characters.
    pub open spec fn wf(&self) -> bool {
        &&& 0 <= self.row < SCREEN_HEIGHT
        &&& 0 <= self.column <= SCREEN_WIDTH
        &&& self.rows.len() == SCREEN_HEIGHT
        &&& forall|r: int| 0 <= r < SCREEN_HEIGHT ==> (#[trigger] self.rows[r]).len() == SCREEN_WIDTH
    }

    /// The state with `byte` at the given place, in the current colour.
    pub open spec fn put_at(self, byte: u8, row: int, column: int) -> WriterState {
        WriterState {
            rows: self.rows.update(
                row,
                self.rows[row].update(column, ScreenChar { character: byte, color_code: self.color }),
            ),
            ..self
        }
    }

    /// The state with row `row` blank, in the current colour.
    pub open spec fn cleared_row(self, row: int) -> WriterState {
        WriterState { rows: self.rows.update(row, blank_row(self.color)), ..self }
    }

    /// The state after a line break: the cursor is at the start of the next
    /// row; from the last row, the screen moves up by one row instead, and
    /// the last row is blank.
    pub open spec fn new_line(self) -> WriterState {
        if self.row < SCREEN_HEIGHT - 1 {
            WriterState { row: self.row + 1, column: 0, ..self }
        } else {
            WriterState {
                rows: self.rows.subrange(1, SCREEN_HEIGHT as int).push(blank_row(self.color)),
                scroll_count: ((self.scroll_count + 1) % 0x1_0000_0000) as u32,
                column: 0,
                ..self
            }
        }
    }

    /// The state outside of an escape sequence.
    pub open spec fn reset(self) -> WriterState {
        WriterState { step: 0, first: 0, second: 0, ..self }
    }

    /// The state after a character that is shown: it stands at the cursor,
    /// after a line break where the row was full, and the cursor has moved on.
    pub open spec fn shown(self, byte: u8) -> WriterState {
        let at = if self.column >= SCREEN_WIDTH {
            self.new_line()
        } else {
            self
        };
        WriterState { column: at.column + 1, ..at.put_at(byte, at.row, at.column) }
    }

    /// The state at the end of an escape sequence: where both numbers are
    /// colours, the first is the colour of what is written from now on and
    /// the second the colour behind it.
    pub open spec fn colored(self) -> WriterState {
        let color = if self.first <= 15 && self.second <= 15 {
            ColorCode((self.second * 16 + self.first) as u8)
        } else {
            self.color
        };
        WriterState { color, ..self.reset() }
    }

    /// The state after `byte` outside of an escape sequence.
    pub open spec fn plain(self, byte: u8) -> WriterState {
        if byte == 0x0a {
            self.new_line()
        } else if byte == ESCAPE {
            WriterState { step: 1, ..self }
        } else {
            self.shown(byte)
        }
    }

    /// The state after `byte` has been written.
    ///
    /// An escape sequence is a backslash, a number, then a semicolon, or a
    /// comma, a second number and a semicolon. A byte that does not fit ends
    /// the sequence and is written as if there had been none.
    pub open spec fn put(self, byte: u8) -> WriterState {
        if self.step == 0 {
            self.plain(byte)
        } else if self.step == 1 && byte == 0x2c {
            WriterState { step: 2, ..self }
        } else if byte == 0x3b {
            self.colored()
        } else if self.step == 1 && is_digit(byte) {
            if self.first >= 26 {
                self.reset()
            } else {
                WriterState { first: with_digit(self.first, byte), ..self }
            }
        } else if self.step == 2 && is_digit(byte) {
            if self.second >= 26 {
                self.reset()
            } else {
                WriterState { second: with_digit(self.second, byte), ..self }
            }
        } else {
            self.reset().plain(byte)
        }
    }

    /// The state after the bytes have been written, one after the other.
    pub open spec fn put_all(self, bytes: Seq<u8>) -> WriterState
        decreases bytes.len(),
    {
        if bytes.len() == 0 {
            self
        } else {
            self.put_all(bytes.drop_last()).put(bytes.last())
        }
    }

    /// The state with the bytes in row `row` from column `offset` on, as far
    /// as the row has room, in the current colour.
    pub open spec fn stamped(self, row: int, bytes: Seq<u8>, offset: int) -> WriterState {
        WriterState {
            rows: self.rows.update(
                row,
                Seq::new(
                    SCREEN_WIDTH as nat,
                    |k: int|
                        if offset <= k < offset + bytes.len() {
                            ScreenChar { character: bytes[k - offset], color_code: self.color }
                        } else {
                            self.rows[row][k]
                        },
                ),
            ),
            ..self
        }
    }

    /// The state with the bytes in the row where `line` stands now, or this
    /// state where the line has left the screen.
    pub open spec fn marked(self, line: Line, bytes: Seq<u8>, offset: int) -> WriterState {
        match line.visible_row(self.scroll_count) {
            Some(row) => self.stamped(row, bytes, offset),
            None => self,
        }
    }

    /// The state in which what is written has the colour `color`.
    pub open spec fn with_color(self, color: ColorCode) -> WriterState {
        WriterState { color, ..self }
    }
}

/// A line of the screen that can still be written to after the cursor has
/// moved on, as long as the line has not left the screen.
#[derive(Debug, Clone, Copy, PartialEq, Eq, Structural)]
pub struct Line {
    pub row: usize,
    pub col: usize,
    pub creation_point: u32,
}

impl Line {
    /// The row of the screen that the line stands in once the screen has
    /// scrolled `scroll_count` times, if it is still on the screen.
    pub open spec fn visible_row(&self, scroll_count: u32) -> Option<int> {
        let moved = (scroll_count - self.creation_point) % 0x1_0000_0000;
        if self.row < moved || self.row - moved >= SCREEN_HEIGHT {
            None
        } else {
            Some(self.row - moved)
        }
    }

    /// The row of the screen that the line stands in now, if it is still on
    /// the screen.
    pub fn row_on_screen(&self, w: &Writer) -> (row: Option<usize>)
        ensures
            row is Some <==> self.visible_row(w@.scroll_count) is Some,
            row matches Some(r) ==> self.visible_row(w@.scroll_count) == Some(r as int),
    {
        let time_delta = w.scroll_count.wrapping_sub(self.creation_point) as usize;
        if self.row < time_delta {
            return None;
        }
        let real_row = self.row - time_delta;
        if real_row >= SCREEN_HEIGHT {
            None
        } else {
            Some(real_row)
        }
    }

    /// Writes `msg` to the line, behind what was written to it before.
    pub fn write(&mut self, w: &mut Writer, msg: &str)
        requires
            old(w).wf(),
            msg.spec_bytes().len() == 0 || old(self).col < SCREEN_WIDTH || old(self).visible_row(
                old(w)@.scroll_count,
            ) is None,
            old(self).col + msg.spec_bytes().len() <= usize::MAX,
        ensures
            final(w).wf(),
            final(w)@ == old(w)@.marked(*old(self), msg.spec_bytes(), old(self).col as int),
            *final(self) == (Line {
                col: (old(self).col + msg.spec_bytes().len()) as usize,
                ..*old(self)
            }),
    {
        let col = self.col;
        self.write_at(w, msg, col);
        self.col += msg.as_bytes().len();
    }

    /// Writes `msg` to the line, from column `offset` on.
    pub fn write_at(&self, w: &mut Writer, msg: &str, offset: usize)
        requires
            old(w).wf(),
            msg.spec_bytes().len() == 0 || offset < SCREEN_WIDTH || self.visible_row(
                old(w)@.scroll_count,
            ) is None,
        ensures
            final(w).wf(),
            final(w)@ == old(w)@.marked(*self, msg.spec_bytes(), offset as int),
    {
        self.write_bytes_at(w, msg.as_bytes(), offset);
    }

    /// Writes `msg` to the line, from column `offset` on.
    pub fn write_bytes_at(&self, w: &mut Writer, msg: &[u8], offset: usize)
        requires
            old(w).wf(),
            msg@.len() == 0 || offset < SCREEN_WIDTH || self.visible_row(old(w)@.scroll_count) is None,
        ensures
            final(w).wf(),
            final(w)@ == old(w)@.marked(*self, msg@, offset as int),
    {
        let real_row = match self.row_on_screen(w) {
            Some(row) => row,
            None => {
                return ;
            },
        };
        let mut column = offset;
        let mut i: usize = 0;
        assert(w@.rows =~~= old(w)@.stamped(real_row as int, msg@.take(0), offset as int).rows);
        while i < msg.len()
            invariant
                i <= msg.len(),
                real_row < SCREEN_HEIGHT,
                self.visible_row(old(w)@.scroll_count) == Some(real_row as int),
                old(w).wf(),
                w.wf(),
                column == offset + i,
                i < msg.len() ==> column < SCREEN_WIDTH,
                w@ == old(w)@.stamped(real_row as int, msg@.take(i as int), offset as int),
            decreases msg.len() - i,
        {
            w.write_byte_at(msg[i], real_row, column);
            column += 1;
            i += 1;
            assert(w@.rows =~~= old(w)@.stamped(
                real_row as int,
                msg@.take(i as int),
                offset as int,
            ).rows);
            if column >= SCREEN_WIDTH {
                assert(w@.rows =~~= old(w)@.stamped(real_row as int, msg@, offset as int).rows);
                return ;
            }
        }
        assert(msg@.take(i as int) =~= msg@);
    }

    /// Marks the line as done: a white `[`, a green `OK` and a white `]` at
    /// the right end of the line.
    pub fn ok(&self, w: &mut Writer)
        requires
            old(w).wf(),
        ensures
            final(w).wf(),
            final(w)@ == old(w)@.with_color(color_code(Color::WHITE, Color::BLACK)).marked(
                *self,
                seq![0x5bu8],
                73,
            ).with_color(color_code(Color::GREEN, Color::BLACK)).marked(
                *self,
                seq![0x4fu8, 0x4bu8],
                75,
            ).with_color(color_code(Color::WHITE, Color::BLACK)).marked(*self, seq![0x5du8], 78),
    {
        let open: [u8; 1] = [0x5b];
        let text: [u8; 2] = [0x4f, 0x4b];
        let close: [u8; 1] = [0x5d];
        assert(open@ =~= seq![0x5bu8] && text@ =~= seq![0x4fu8, 0x4bu8] && close@ =~= seq![0x5du8]);
        switch_color(w, Color::WHITE, Color::BLACK);
        self.write_bytes_at(w, open.as_slice(), SCREEN_WIDTH - 7);
        switch_color(w, Color::GREEN, Color::BLACK);
        self.write_bytes_at(w, text.as_slice(), SCREEN_WIDTH - 5);
        switch_color(w, Color::WHITE, Color::BLACK);
        self.write_bytes_at(w, close.as_slice(), SCREEN_WIDTH - 2);
    }

    /// Marks the line as failed: a white `[`, then `FAIL` and `]` in green,
    /// at the right end of the line.
    pub fn fail(&self, w: &mut Writer)
        requires
            old(w).wf(),
        ensures
            final(w).wf(),
            final(w)@ == old(w)@.with_color(color_code(Color::WHITE, Color::BLACK)).marked(
                *self,
                seq![0x5bu8],
                73,
            ).with_color(color_code(Color::GREEN, Color::BLACK)).marked(
                *self,
                seq![0x46u8, 0x41u8, 0x49u8, 0x4cu8],
                74,
            ).marked(*self, seq![0x5du8], 78),
    {
        let open: [u8; 1] = [0x5b];
        let text: [u8; 4] = [0x46, 0x41, 0x49, 0x4c];
        let close: [u8; 1] = [0x5d];
        assert(open@ =~= seq![0x5bu8] && text@ =~= seq![0x46u8, 0x41u8, 0x49u8, 0x4cu8] && close@
            =~= seq![0x5du8]);
        switch_color(w, Color::WHITE, Color::BLACK);
        self.write_bytes_at(w, open.as_slice(), SCREEN_WIDTH - 7);
        switch_color(w, Color::GREEN, Color::BLACK);
        self.write_bytes_at(w, text.as_slice(), SCREEN_WIDTH - 6);
        self.write_bytes_at(w, close.as_slice(), SCREEN_WIDTH - 2);
    }
}

/// The number read so far with one more digit.
fn next_number(number: u8, digit: u8) -> (next: u8)
    requires
        is_digit(digit),
    ensures
        next == with_digit(number, digit),
{
    number.wrapping_mul(10).wrapping_add(digit - 0x30)
}

/// Writes text to the screen.
pub struct Writer {
    row_position: usize,
    column_position: usize,
    color_code: ColorCode,
    buffer: Buffer,
    scroll_count: u32,
    escape_sequence_step: u8,
    escape_accumulator_1: u8,
    escape_accumulator_2: u8,
}

impl View for Writer {
    type V = WriterState;

    closed spec fn view(&self) -> WriterState {
        WriterState {
            row: self.row_position as int,
            column: self.column_position as int,
            color: self.color_code,
            scroll_count: self.scroll_count,
            step: self.escape_sequence_step,
            first: self.escape_accumulator_1,
            second: self.escape_accumulator_2,
            rows: rows_of(self.buffer),
        }
    }
}

/// The characters that the buffer holds, row by row.
#[verifier::opaque]
pub closed spec fn rows_of(buffer: Buffer) -> Seq<Seq<ScreenChar>> {
    Seq::new(SCREEN_HEIGHT as nat, |r: int| buffer.chars[r]@)
}

/// The rows of a buffer are its 25 rows of 80 characters.
proof fn lemma_rows_of(buffer: Buffer)
    ensures
        rows_of(buffer).len() == SCREEN_HEIGHT,
        forall|r: int| 0 <= r < SCREEN_HEIGHT ==> #[trigger] rows_of(buffer)[r] == buffer.chars[r]@,
        forall|r: int| 0 <= r < SCREEN_HEIGHT ==> (#[trigger] rows_of(buffer)[r]).len() == SCREEN_WIDTH,
{
    reveal(rows_of);
}

impl Writer {
    /// True if the cursor is on the screen.
    pub open spec fn wf(&self) -> bool {
        self@.wf()
    }

    /// A writer at the top of a screen of blanks that writes light green on black.
    pub fn new() -> (writer: Writer)
        ensures
            writer.wf(),
            writer@ == (WriterState {
                row: 0,
                column: 0,
                color: color_code(Color::LIGHT_GREEN, Color::BLACK),
                scroll_count: 0,
                step: 0,
                first: 0,
                second: 0,
                rows: Seq::new(
                    SCREEN_HEIGHT as nat,
                    |r: int| blank_row(color_code(Color::LIGHT_GREEN, Color::BLACK)),
                ),
            }),
    {
        let color = ColorCode::new(Color::LIGHT_GREEN, Color::BLACK);
        let blank = ScreenChar { character: 0x20, color_code: color };
        let writer = Writer {
            row_position: 0,
            column_position: 0,
            scroll_count: 0,
            color_code: color,
            buffer: Buffer { chars: [[blank; 80]; 25] },
            escape_sequence_step: 0,
            escape_accumulator_1: 0,
            escape_accumulator_2: 0,
        };
        proof {
            lemma_rows_of(writer.buffer);
        }
        assert(writer@.rows =~~= Seq::new(
            SCREEN_HEIGHT as nat,
            |r: int| blank_row(color_code(Color::LIGHT_GREEN, Color::BLACK)),
        ));
        writer
    }

    /// The character at the given place.
    pub fn char_at(&self, row: usize, col: usize) -> (c: ScreenChar)
        requires
            row < SCREEN_HEIGHT,
            col < SCREEN_WIDTH,
        ensures
            c == self@.rows[row as int][col as int],
    {
        proof {
            lemma_rows_of(self.buffer);
        }
        self.buffer.chars[row][col]
    }

    /// The row that is written to and the column that the next character goes to.
    pub fn position(&self) -> (at: (usize, usize))
        ensures
            at.0 == self@.row,
            at.1 == self@.column,
    {
        (self.row_position, self.column_position)
    }

    /// The colour of what is written.
    pub fn color(&self) -> (color: ColorCode)
        ensures
            color == self@.color,
    {
        self.color_code
    }

    /// Makes `color` the colour of what is written from now on.
    pub fn set_color(&mut self, color: ColorCode)
        ensures
            final(self)@ == old(self)@.with_color(color),
    {
        self.color_code = color;
    }

    /// How often the screen has scrolled, counted modulo 2^32.
    pub fn scroll_count(&self) -> (count: u32)
        ensures
            count == self@.scroll_count,
    {
        self.scroll_count
    }

    /// Writes `byte` outside of an escape sequence: breaks the line, starts
    /// an escape sequence, or shows the byte.
    fn write_plain(&mut self, byte: u8)
        requires
            old(self).wf(),
        ensures
            final(self).wf(),
            final(self)@ == old(self)@.plain(byte),
    {
        if byte == 0x0a {
            self.new_line();
        } else if byte == ESCAPE {
            self.escape_sequence_step = 1;
        } else {
            if self.column_position >= SCREEN_WIDTH {
                self.new_line();
            }
            let row = self.row_position;
            let col = self.column_position;
            self.write_byte_at(byte, row, col);
            self.column_position += 1;
        }
    }

    /// Leaves the escape sequence.
    fn reset_escape(&mut self)
        ensures
            final(self)@ == old(self)@.reset(),
    {
        self.escape_sequence_step = 0;
        self.escape_accumulator_1 = 0;
        self.escape_accumulator_2 = 0;
    }

    /// Ends the escape sequence and takes over the colours it names.
    fn finish_escape(&mut self)
        ensures
            final(self)@ == old(self)@.colored(),
    {
        match (
            Color::from_u8(self.escape_accumulator_1),
            Color::from_u8(self.escape_accumulator_2),
        ) {
            (Some(front), Some(back)) => {
                self.color_code = ColorCode::new(front, back);
            },
            _ => {},
        }
        self.reset_escape();
    }

    /// Goes on to the second number of the escape sequence.
    fn second_number(&mut self)
        ensures
            final(self)@ == (WriterState { step: 2, ..old(self)@ }),
    {
        self.escape_sequence_step = 2;
    }

    /// Takes `digit` as the next digit of the number that the escape
    /// sequence is at, or leaves the sequence where the number has grown to
    /// 26 or more.
    fn escape_digit(&mut self, digit: u8)
        requires
            is_digit(digit),
            old(self)@.step == 1 || old(self)@.step == 2,
        ensures
            final(self)@ == old(self)@.put(digit),
    {
        if self.escape_sequence_step == 1 {
            if self.escape_accumulator_1 >= 26 {
                self.reset_escape();
            } else {
                let number = next_number(self.escape_accumulator_1, digit);
                self.escape_accumulator_1 = number;
                assert(self@ == (WriterState { first: number, ..old(self)@ }));
            }
        } else {
            if self.escape_accumulator_2 >= 26 {
                self.reset_escape();
            } else {
                let number = next_number(self.escape_accumulator_2, digit);
                self.escape_accumulator_2 = number;
                assert(self@ == (WriterState { second: number, ..old(self)@ }));
            }
        }
    }

    /// Where in an escape sequence the writer is: 0 outside of one, 1 in the
    /// first number, 2 in the second.
    pub fn escape_step(&self) -> (step: u8)
        ensures
            step == self@.step,
    {
        self.escape_sequence_step
    }

    /// Writes `byte`: shows it, breaks the line, or takes it as a part of an
    /// escape sequence.
    pub fn write_byte(&mut self, byte: u8)
        requires
            old(self).wf(),
        ensures
            final(self).wf(),
            final(self)@ == old(self)@.put(byte),
    {
        let step = self.escape_step();
        if step == 0 {
            self.write_plain(byte);
        } else if step == 1 && byte == 0x2c {
            self.second_number();
        } else if byte == 0x3b {
            self.finish_escape();
        } else if (step == 1 || step == 2) && byte >= 0x30 && byte <= 0x39 {
            self.escape_digit(byte);
        } else {
            self.reset_escape();
            self.write_plain(byte);
        }
    }

    /// Puts `byte` at the given place, in the current colour.
    pub fn write_byte_at(&mut self, byte: u8, row: usize, col: usize)
        requires
            old(self).wf(),
            row < SCREEN_HEIGHT,
            col < SCREEN_WIDTH,
        ensures
            final(self).wf(),
            final(self)@ == old(self)@.put_at(byte, row as int, col as int),
    {
        self.buffer.chars[row][col] = ScreenChar { character: byte, color_code: self.color_code };
        proof {
            lemma_rows_of(old(self).buffer);
            lemma_rows_of(self.buffer);
        }
        assert(self@.rows =~~= old(self)@.put_at(byte, row as int, col as int).rows);
    }

    /// Breaks the line and returns the line that the cursor has left.
    pub fn get_line(&mut self) -> (line: Line)
        requires
            old(self).wf(),
        ensures
            final(self).wf(),
            final(self)@ == old(self)@.new_line(),
            line == (Line {
                row: (final(self)@.row - 1) as usize,
                col: 0,
                creation_point: final(self)@.scroll_count,
            }),
            final(self)@.row >= 1,
    {
        self.new_line();
        Line { row: self.row_position - 1, col: 0, creation_point: self.scroll_count }
    }

    /// Blanks every row but the last, and counts the screen as scrolled by
    /// its height.
    pub fn clear_screen(&mut self)
        requires
            old(self).wf(),
        ensures
            final(self).wf(),
            final(self)@ == (WriterState {
                rows: Seq::new(
                    SCREEN_HEIGHT as nat,
                    |r: int|
                        if r < SCREEN_HEIGHT - 1 {
                            blank_row(old(self)@.color)
                        } else {
                            old(self)@.rows[r]
                        },
                ),
                scroll_count: ((old(self)@.scroll_count + SCREEN_HEIGHT) % 0x1_0000_0000) as u32,
                ..old(self)@
            }),
    {
        let mut row: usize = 0;
        assert(self@.rows =~~= Seq::new(
            SCREEN_HEIGHT as nat,
            |r: int|
                if r < 0 {
                    blank_row(old(self)@.color)
                } else {
                    old(self)@.rows[r]
                },
        ));
        while row < SCREEN_HEIGHT - 1
            invariant
                row <= SCREEN_HEIGHT - 1,
                self.wf(),
                self@ == (WriterState {
                    rows: Seq::new(
                        SCREEN_HEIGHT as nat,
                        |r: int|
                            if r < row {
                                blank_row(old(self)@.color)
                            } else {
                                old(self)@.rows[r]
                            },
                    ),
                    ..old(self)@
                }),
            decreases SCREEN_HEIGHT - 1 - row,
        {
            self.clear_row(row);
            row += 1;
            assert(self@.rows =~~= Seq::new(
                SCREEN_HEIGHT as nat,
                |r: int|
                    if r < row {
                        blank_row(old(self)@.color)
                    } else {
                        old(self)@.rows[r]
                    },
            ));
        }
        self.scroll_count = self.scroll_count.wrapping_add(SCREEN_HEIGHT as u32);
    }

    /// Breaks the line: the cursor goes to the start of the next row; from
    /// the last row, the screen moves up by one row instead.
    pub fn new_line(&mut self)
        requires
            old(self).wf(),
        ensures
            final(self).wf(),
            final(self)@ == old(self)@.new_line(),
    {
        if self.row_position < SCREEN_HEIGHT - 1 {
            self.row_position += 1;
        } else {
            let mut row: usize = 0;
            assert(self@.rows =~~= Seq::new(
                SCREEN_HEIGHT as nat,
                |r: int|
                    if r < 0 {
                        old(self)@.rows[r + 1]
                    } else {
                        old(self)@.rows[r]
                    },
            ));
            while row < SCREEN_HEIGHT - 1
                invariant
                    row <= SCREEN_HEIGHT - 1,
                    self.wf(),
                    self@ == (WriterState {
                        rows: Seq::new(
                            SCREEN_HEIGHT as nat,
                            |r: int|
                                if r < row {
                                    old(self)@.rows[r + 1]
                                } else {
                                    old(self)@.rows[r]
                                },
                        ),
                        ..old(self)@
                    }),
                decreases SCREEN_HEIGHT - 1 - row,
            {
                let ghost before = self@;
                proof {
                    lemma_rows_of(self.buffer);
                }
                assert(before.rows[row + 1] == old(self)@.rows[row + 1]);
                self.buffer.chars[row] = self.buffer.chars[row + 1];
                row += 1;
                proof {
                    lemma_rows_of(self.buffer);
                }
                assert forall|r: int| 0 <= r < SCREEN_HEIGHT implies #[trigger] self@.rows[r] == (if r
                    < row {
                    old(self)@.rows[r + 1]
                } else {
                    old(self)@.rows[r]
                }) by {
                    if r != row - 1 {
                        assert(self@.rows[r] == before.rows[r]);
                    }
                }
                assert(self@.rows =~~= Seq::new(
                    SCREEN_HEIGHT as nat,
                    |r: int|
                        if r < row {
                            old(self)@.rows[r + 1]
                        } else {
                            old(self)@.rows[r]
                        },
                ));
            }
            self.clear_row(SCREEN_HEIGHT - 1);
            self.scroll_count = self.scroll_count.wrapping_add(1);
            assert(self@.rows =~~= old(self)@.new_line().rows);
        }
        self.column_position = 0;
    }

    /// Blanks row `row`, in the current colour.
    pub fn clear_row(&mut self, row: usize)
        requires
            old(self).wf(),
            row < SCREEN_HEIGHT,
        ensures
            final(self).wf(),
            final(self)@ == old(self)@.cleared_row(row as int),
    {
        let blank = ScreenChar { character: 0x20, color_code: self.color_code };
        self.buffer.chars[row] = [blank; 80];
        proof {
            lemma_rows_of(old(self).buffer);
            lemma_rows_of(self.buffer);
        }
        assert(self@.rows =~~= old(self)@.cleared_row(row as int).rows);
    }

    /// Writes the bytes of `s`, one after the other.
    pub fn write_str(&mut self, s: &str)
        requires
            old(self).wf(),
        ensures
            final(self).wf(),
            final(self)@ == old(self)@.put_all(s.spec_bytes()),
    {
        let bytes = s.as_bytes();
        let mut i: usize = 0;
        while i < bytes.len()
            invariant
                i <= bytes.len(),
                self.wf(),
                self@ == old(self)@.put_all(bytes@.take(i as int)),
            decreases bytes.len() - i,
        {
            self.write_byte(bytes[i]);
            i += 1;
            assert(bytes@.take(i as int).drop_last() =~= bytes@.take(i as int - 1));
        }
        assert(bytes@.take(i as int) =~= bytes@);
    }
}

/// Blanks every row of the screen but the last.
pub fn clear_screen(w: &mut Writer)
    requires
        old(w).wf(),
    ensures
        final(w).wf(),
        final(w)@ == (WriterState {
            rows: Seq::new(
                SCREEN_HEIGHT as nat,
                |r: int|
                    if r < SCREEN_HEIGHT - 1 {
                        blank_row(old(w)@.color)
                    } else {
                        old(w)@.rows[r]
                    },
            ),
            scroll_count: ((old(w)@.scroll_count + SCREEN_HEIGHT) % 0x1_0000_0000) as u32,
            ..old(w)@
        }),
{
    w.clear_screen()
}

/// Makes `front` the colour of what is written from now on, and `back` the
/// colour behind it.
pub fn switch_color(w: &mut Writer, front: Color, back: Color)
    ensures
        final(w)@ == old(w)@.with_color(color_code(front, back)),
{
    w.set_color(ColorCode::new(front, back));
}

/// What a number below 100 leaves in a writer that reads it as the number
/// of an escape sequence: its value.
proof fn lemma_number_read(state: WriterState, number: u8)
    requires
        number <= 15,
        state.step == 1 || state.step == 2,
        state.step == 1 ==> state.first == 0,
        state.step == 2 ==> state.second == 0,
    ensures
        state.put_all(decimal(number as nat)) == if state.step == 1 {
            WriterState { first: number, ..state }
        } else {
            WriterState { second: number, ..state }
        },
{
    reveal_with_fuel(WriterState::put_all, 3);
    reveal_with_fuel(decimal, 2);
    let digits = decimal(number as nat);
    if number < 10 {
        assert(digits =~= seq![digit(number as int)]);
        assert(digits.drop_last() =~= Seq::<u8>::empty());
    } else {
        assert(digits =~= seq![0x31u8, digit(number as int - 10)]);
        assert(digits.drop_last() =~= seq![0x31u8]);
        assert(digits.drop_last().drop_last() =~= Seq::<u8>::empty());
    }
}

/// Writing one text after another is writing the two as one.
pub proof fn lemma_put_all_concat(state: WriterState, first: Seq<u8>, second: Seq<u8>)
    ensures
        state.put_all(first + second) == state.put_all(first).put_all(second),
    decreases second.len(),
{
    if second.len() == 0 {
        assert(first + second =~= first);
    } else {
        lemma_put_all_concat(state, first, second.drop_last());
        assert((first + second).drop_last() =~= first + second.drop_last());
    }
}

/// An escape sequence with one colour, written outside of an escape
/// sequence, makes that colour the colour of what is written, on black, and
/// changes nothing else.
pub proof fn lemma_escape_sets_color(state: WriterState, color: Color)
    requires
        state.step == 0,
        state.first == 0,
        state.second == 0,
    ensures
        state.put_all(escape_of(color.spec_code())) == state.with_color(
            color_code(color, Color::BLACK),
        ),
{
    let number = color.spec_code();
    let start = state.put_all(seq![ESCAPE]);
    assert(start == WriterState { step: 1, ..state }) by {
        reveal_with_fuel(WriterState::put_all, 2);
        assert(seq![ESCAPE].drop_last() =~= Seq::<u8>::empty());
    }
    lemma_number_read(start, number);
    let read = start.put_all(decimal(number as nat));
    assert(read.put_all(seq![0x3bu8]) == read.put(0x3b)) by {
        reveal_with_fuel(WriterState::put_all, 2);
        assert(seq![0x3bu8].drop_last() =~= Seq::<u8>::empty());
    }
    lemma_put_all_concat(state, seq![ESCAPE], decimal(number as nat));
    lemma_put_all_concat(state, seq![ESCAPE] + decimal(number as nat), seq![0x3bu8]);
}

/// An escape sequence with two colours, written outside of an escape
/// sequence, makes the first the colour of what is written and the second
/// the colour behind it, and changes nothing else.
pub proof fn lemma_escape_sets_colors(state: WriterState, front: Color, back: Color)
    requires
        state.step == 0,
        state.first == 0,
        state.second == 0,
    ensures
        state.put_all(escape_of_two(front.spec_code(), back.spec_code())) == state.with_color(
            color_code(front, back),
        ),
{
    let a = front.spec_code();
    let b = back.spec_code();
    let start = state.put_all(seq![ESCAPE]);
    assert(start == WriterState { step: 1, ..state }) by {
        reveal_with_fuel(WriterState::put_all, 2);
        assert(seq![ESCAPE].drop_last() =~= Seq::<u8>::empty());
    }
    lemma_number_read(start, a);
    let first = start.put_all(decimal(a as nat));
    let comma = first.put_all(seq![0x2cu8]);
    assert(comma == WriterState { step: 2, ..first }) by {
        reveal_with_fuel(WriterState::put_all, 2);
        assert(seq![0x2cu8].drop_last() =~= Seq::<u8>::empty());
    }
    lemma_number_read(comma, b);
    let second = comma.put_all(decimal(b as nat));
    assert(second.put_all(seq![0x3bu8]) == second.put(0x3b)) by {
        reveal_with_fuel(WriterState::put_all, 2);
        assert(seq![0x3bu8].drop_last() =~= Seq::<u8>::empty());
    }
    lemma_put_all_concat(state, seq![ESCAPE], decimal(a as nat));
    lemma_put_all_concat(state, seq![ESCAPE] + decimal(a as nat), seq![0x2cu8]);
    lemma_put_all_concat(
        state,
        seq![ESCAPE] + decimal(a as nat) + seq![0x2cu8],
        decimal(b as nat),
    );
    lemma_put_all_concat(
        state,
        seq![ESCAPE] + decimal(a as nat) + seq![0x2cu8] + decimal(b as nat),
        seq![0x3bu8],
    );
}

} // verus!
