//! Text mode: colours, colour codes and the screen writer.

use vstd::prelude::*;
use vstd::string::*;

verus! {

/// A colour of the VGA text buffer.
#[derive(Debug, Clone, Copy, PartialEq, Eq, Structural)]
pub enum Color {
    Black,
    Blue,
    Green,
    Cyan,
    Red,
    Magenta,
    Brown,
    LightGray,
    DarkGray,
    LightBlue,
    LightGreen,
    LightCyan,
    LightRed,
    Pink,
    Yellow,
    White,
}

/// The number of a colour, 0 to 15.
pub open spec fn spec_code(color: Color) -> u8 {
    match color {
        Color::Black => 0,
        Color::Blue => 1,
        Color::Green => 2,
        Color::Cyan => 3,
        Color::Red => 4,
        Color::Magenta => 5,
        Color::Brown => 6,
        Color::LightGray => 7,
        Color::DarkGray => 8,
        Color::LightBlue => 9,
        Color::LightGreen => 10,
        Color::LightCyan => 11,
        Color::LightRed => 12,
        Color::Pink => 13,
        Color::Yellow => 14,
        Color::White => 15,
    }
}

impl Color {
    /// The number of the colour.
    pub fn code(self) -> (code: u8)
        ensures
            code == spec_code(self),
            code < 16,
    {
        match self {
            Color::Black => 0,
            Color::Blue => 1,
            Color::Green => 2,
            Color::Cyan => 3,
            Color::Red => 4,
            Color::Magenta => 5,
            Color::Brown => 6,
            Color::LightGray => 7,
            Color::DarkGray => 8,
            Color::LightBlue => 9,
            Color::LightGreen => 10,
            Color::LightCyan => 11,
            Color::LightRed => 12,
            Color::Pink => 13,
            Color::Yellow => 14,
            Color::White => 15,
        }
    }

    /// The colour with the number `code`, which must be below 16.
    pub fn from_code(code: u8) -> (color: Color)
        requires
            code < 16,
        ensures
            spec_code(color) == code,
    {
        match code {
            0 => Color::Black,
            1 => Color::Blue,
            2 => Color::Green,
            3 => Color::Cyan,
            4 => Color::Red,
            5 => Color::Magenta,
            6 => Color::Brown,
            7 => Color::LightGray,
            8 => Color::DarkGray,
            9 => Color::LightBlue,
            10 => Color::LightGreen,
            11 => Color::LightCyan,
            12 => Color::LightRed,
            13 => Color::Pink,
            14 => Color::Yellow,
            _ => Color::White,
        }
    }
}

/// A foreground and a background colour in one byte: the background in the
/// high four bits, the foreground in the low four.
#[derive(Debug, Clone, Copy, PartialEq, Eq, Structural)]
pub struct ColorCode(pub u8);

/// The byte of a foreground and a background colour.
pub open spec fn spec_color_code(foreground: Color, background: Color) -> u8 {
    (spec_code(background) * 16 + spec_code(foreground)) as u8
}

impl ColorCode {
    /// Creates a new colour code from the passed in colours.
    pub fn new(foreground: Color, background: Color) -> (code: ColorCode)
        ensures
            code.0 == spec_color_code(foreground, background),
    {
        let b = background.code();
        let f = foreground.code();
        assert((b << 4u8 | f) == b * 16 + f) by (bit_vector)
            requires
                b < 16,
                f < 16,
        ;
        ColorCode(b << 4u8 | f)
    }

    /// The two colours of the code, as (foreground, background).
    pub fn tupled(self) -> (colors: (Color, Color))
        ensures
            spec_code(colors.0) == self.0 % 16,
            spec_code(colors.1) == self.0 / 16,
            spec_color_code(colors.0, colors.1) == self.0,
    {
        let v = self.0;
        let back = (v & 0xF0) >> 4u8;
        let fore = v & 0x0F;
        assert((v & 0xF0) >> 4u8 == v / 16 && v & 0x0F == v % 16 && (v & 0xF0) >> 4u8 < 16 && v
            & 0x0F < 16) by (bit_vector);
        (Color::from_code(fore), Color::from_code(back))
    }
}

/// Taking a colour code apart gives back the colours it was made of.
pub proof fn lemma_color_code_round_trip(foreground: Color, background: Color)
    ensures
        spec_color_code(foreground, background) % 16 == spec_code(foreground),
        spec_color_code(foreground, background) / 16 == spec_code(background),
{
}

/// A character on the screen with its colours.
#[derive(Debug, Clone, Copy, PartialEq, Eq, Structural)]
pub struct ScreenChar {
    pub ascii_character: u8,
    pub color_code: ColorCode,
}

/// The number of rows of the screen.
pub const BUFFER_HEIGHT: usize = 25;

/// The number of columns of the screen.
pub const BUFFER_WIDTH: usize = 80;

/// The screen writer: the characters of the screen row by row, the column at
/// which the next character goes in the last row, and the colours in use.
#[derive(Debug)]
pub struct Writer {
    column_position: usize,
    color_code: ColorCode,
    buffer: Vec<ScreenChar>,
}

/// The mathematical state of a writer.
pub struct WriterView {
    pub column: int,
    pub color: ColorCode,
    pub chars: Seq<ScreenChar>,
}

/// A blank in the colours `color`.
pub open spec fn blank(color: ColorCode) -> ScreenChar {
    ScreenChar { ascii_character: 0x20, color_code: color }
}

impl WriterView {
    /// The character at `row` and `col`.
    pub open spec fn at(self, row: int, col: int) -> ScreenChar {
        self.chars[row * 80 + col]
    }

    /// The screen holds 25 rows of 80 characters and the column is on it or
    /// just past its end.
    pub open spec fn wf(self) -> bool {
        self.chars.len() == 2000 && 0 <= self.column <= 80
    }

    /// The state after a new line: every row moves up by one, the last row is
    /// blank in the colours in use, and the column is 0.
    pub open spec fn new_line(self) -> WriterView {
        WriterView {
            column: 0,
            color: self.color,
            chars: Seq::new(
                2000,
                |k: int|
                    if k < 1920 {
                        self.chars[k + 80]
                    } else {
                        blank(self.color)
                    },
            ),
        }
    }

    /// The state after the byte `byte` is put at the column in the last row.
    pub open spec fn put(self, byte: u8) -> WriterView {
        WriterView {
            column: self.column + 1,
            color: self.color,
            chars: self.chars.update(
                1920 + self.column,
                ScreenChar { ascii_character: byte, color_code: self.color },
            ),
        }
    }

    /// The state after `byte` is written: a line feed makes a new line, any
    /// other byte goes to the column, after a new line where the row is full.
    pub open spec fn write_byte(self, byte: u8) -> WriterView {
        if byte == 0x0A {
            self.new_line()
        } else if self.column >= 80 {
            self.new_line().put(byte)
        } else {
            self.put(byte)
        }
    }

    /// The state after the bytes `bytes` are written one by one.
    pub open spec fn write_bytes(self, bytes: Seq<u8>) -> WriterView
        decreases bytes.len(),
    {
        if bytes.len() == 0 {
            self
        } else {
            self.write_bytes(bytes.drop_last()).write_byte(bytes.last())
        }
    }
}

/// The byte that is shown for a character of a text: the character itself
/// where it is printable ASCII or a line feed, else the block `0xfe`.
pub open spec fn spec_shown(c: char) -> u8 {
    if (' ' <= c && c <= '~') || c == '\n' {
        c as u8
    } else {
        0xfe
    }
}

/// The byte that is shown for a character of a text.
pub fn shown(c: char) -> (byte: u8)
    ensures
        byte == spec_shown(c),
{
    if (' ' <= c && c <= '~') || c == '\n' {
        c as u8
    } else {
        0xfe
    }
}

impl View for Writer {
    type V = WriterView;

    closed spec fn view(&self) -> WriterView {
        WriterView {
            column: self.column_position as int,
            color: self.color_code,
            chars: self.buffer@,
        }
    }
}

impl Writer {
    /// A writer on a blank screen, white on black, at column 0.
    pub fn new() -> (writer: Writer)
        ensures
            writer@.wf(),
            writer@.column == 0,
            writer@.color == ColorCode(15),
            forall|k: int| 0 <= k < 2000 ==> writer@.chars[k] == blank(ColorCode(15)),
    {
        let color_code = ColorCode::new(Color::White, Color::Black);
        let mut buffer: Vec<ScreenChar> = Vec::new();
        let mut k: usize = 0;
        while k < 2000
            invariant
                0 <= k <= 2000,
                buffer@.len() == k,
                color_code == ColorCode(15),
                forall|j: int| 0 <= j < k ==> buffer@[j] == blank(ColorCode(15)),
            decreases 2000 - k,
        {
            buffer.push(ScreenChar { ascii_character: 0x20, color_code });
            k += 1;
        }
        Writer { column_position: 0, color_code, buffer }
    }

    /// The character at `row` and `col` of the screen.
    pub fn char_at(&self, row: usize, col: usize) -> (c: ScreenChar)
        requires
            self@.wf(),
            row < 25,
            col < 80,
        ensures
            c == self@.at(row as int, col as int),
    {
        self.buffer[row * BUFFER_WIDTH + col]
    }

    /// The column at which the next character goes.
    pub fn column(&self) -> (col: usize)
        ensures
            col == self@.column,
    {
        self.column_position
    }

    /// Clears a row: every character of it becomes a blank in the colours in
    /// use.
    pub fn clear_row(&mut self, row: usize)
        requires
            old(self)@.wf(),
            row < 25,
        ensures
            final(self)@.wf(),
            final(self)@.column == old(self)@.column,
            final(self)@.color == old(self)@.color,
            forall|k: int|
                0 <= k < 2000 ==> final(self)@.chars[k] == if row * 80 <= k < row * 80 + 80 {
                    blank(old(self)@.color)
                } else {
                    old(self)@.chars[k]
                },
    {
        let blank_char = ScreenChar { ascii_character: 0x20, color_code: self.color_code };
        let mut col: usize = 0;
        while col < BUFFER_WIDTH
            invariant
                0 <= col <= 80,
                row < 25,
                self.buffer@.len() == 2000,
                self.column_position == old(self).column_position,
                self.color_code == old(self).color_code,
                blank_char == blank(old(self)@.color),
                forall|k: int|
                    0 <= k < 2000 ==> self.buffer@[k] == if row * 80 <= k < row * 80 + col {
                        blank_char
                    } else {
                        old(self).buffer@[k]
                    },
            decreases 80 - col,
        {
            self.buffer.set(row * BUFFER_WIDTH + col, blank_char);
            col += 1;
        }
    }

    /// Makes a new line: every row moves up by one and the last is cleared.
    pub fn new_line(&mut self)
        requires
            old(self)@.wf(),
        ensures
            final(self)@.wf(),
            final(self)@ == old(self)@.new_line(),
    {
        let mut k: usize = 0;
        while k < 1920
            invariant
                0 <= k <= 1920,
                self.buffer@.len() == 2000,
                self.column_position == old(self).column_position,
                self.color_code == old(self).color_code,
                forall|j: int|
                    0 <= j < 2000 ==> self.buffer@[j] == if j < k {
                        old(self).buffer@[j + 80]
                    } else {
                        old(self).buffer@[j]
                    },
            decreases 1920 - k,
        {
            let character = self.buffer[k + BUFFER_WIDTH];
            self.buffer.set(k, character);
            k += 1;
        }
        self.clear_row(BUFFER_HEIGHT - 1);
        self.column_position = 0;
        proof {
            assert(self@.chars =~= old(self)@.new_line().chars);
        }
    }

    /// Writes a byte to the screen: a line feed makes a new line, any other
    /// byte goes to the column in the last row, after a new line where the
    /// row is full.
    pub fn write_byte(&mut self, byte: u8)
        requires
            old(self)@.wf(),
        ensures
            final(self)@.wf(),
            final(self)@ == old(self)@.write_byte(byte),
    {
        if byte == 0x0A {
            self.new_line();
        } else {
            if self.column_position >= BUFFER_WIDTH {
                self.new_line();
            }
            let row = BUFFER_HEIGHT - 1;
            let col = self.column_position;
            let color_code = self.color_code;
            self.buffer.set(row * BUFFER_WIDTH + col, ScreenChar { ascii_character: byte, color_code });
            self.column_position += 1;
        }
    }

    /// Writes a character to the screen as one byte. The character must fit
    /// one: it is the caller who replaces what does not.
    pub fn write_char(&mut self, character: char)
        requires
            old(self)@.wf(),
            character as u32 <= 0xFF,
        ensures
            final(self)@.wf(),
            final(self)@ == old(self)@.write_byte(character as u8),
    {
        self.write_byte(character as u8);
    }

    /// Writes a text: each printable ASCII character and each line feed as
    /// it is, and the block `0xfe` for every other character.
    pub fn write_string(&mut self, s: &str)
        requires
            old(self)@.wf(),
        ensures
            final(self)@.wf(),
            final(self)@ == old(self)@.write_bytes(s@.map_values(|c: char| spec_shown(c))),
    {
        let n = s.unicode_len();
        let ghost bytes = s@.map_values(|c: char| spec_shown(c));
        let mut k: usize = 0;
        while k < n
            invariant
                0 <= k <= n,
                n == s@.len(),
                bytes == s@.map_values(|c: char| spec_shown(c)),
                self@.wf(),
                self@ == old(self)@.write_bytes(bytes.subrange(0, k as int)),
            decreases n - k,
        {
            proof {
                assert(bytes.subrange(0, k + 1).drop_last() =~= bytes.subrange(0, k as int));
            }
            self.write_byte(shown(s.get_char(k)));
            k += 1;
        }
        proof {
            assert(bytes.subrange(0, n as int) =~= bytes);
        }
    }

    /// Sets the colours in use; the screen stays as it is.
    pub fn set_color(&mut self, code: ColorCode)
        ensures
            final(self)@.color == code,
            final(self)@.column == old(self)@.column,
            final(self)@.chars == old(self)@.chars,
    {
        self.color_code = code;
    }

    /// The colours in use.
    pub fn color(&self) -> (code: ColorCode)
        ensures
            code == self@.color,
    {
        self.color_code
    }
}

/// Sets the print colour of `writer`.
pub fn set_print_color(writer: &mut Writer, fore: Color, back: Color)
    ensures
        final(writer)@.color.0 == spec_color_code(fore, back),
        final(writer)@.column == old(writer)@.column,
        final(writer)@.chars == old(writer)@.chars,
{
    writer.set_color(ColorCode::new(fore, back));
}

/// Resets the print colour of `writer` to white on black.
pub fn reset_print_color(writer: &mut Writer)
    ensures
        final(writer)@.color == ColorCode(15),
        final(writer)@.column == old(writer)@.column,
        final(writer)@.chars == old(writer)@.chars,
{
    set_print_color(writer, Color::White, Color::Black);
}

/// Gets the print colour of `writer`.
pub fn query_print_color(writer: &Writer) -> (code: ColorCode)
    ensures
        code == writer@.color,
{
    writer.color()
}

} // verus!
