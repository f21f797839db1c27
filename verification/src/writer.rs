//! The writer: a cursor on the bottom row of the screen that turns a stream
//! of bytes into cells, wrapping and scrolling as it goes.

use vstd::prelude::*;
use vstd::string::StringSliceAdditionalSpecFns;
use crate::buffer::{is_grid, Buffer, BUFFER_HEIGHT, BUFFER_WIDTH};
use crate::cell::ScreenChar;
use crate::color::ColorCode;
use crate::laws::{lemma_printable_written_unchanged, lemma_write_string_concat};
use crate::screen::{sanitize, spec_is_printable, spec_sanitize, Screen, NEWLINE};

verus! {

/// Writes bytes and strings to the text buffer it owns. Everything is
/// written on the bottom row; the screen scrolls up when that row is full or
/// a newline is written.
pub struct Writer {
    column_position: usize,
    color_code: ColorCode,
    buffer: Buffer,
}

impl View for Writer {
    type V = Screen;

    closed spec fn view(&self) -> Screen {
        Screen {
            column: self.column_position as nat,
            color: self.color_code,
            grid: self.buffer@,
        }
    }
}

impl Writer {
    /// The column is on the bottom row or one past its end.
    #[verifier::type_invariant]
    spec fn column_on_screen(self) -> bool {
        self.column_position <= BUFFER_WIDTH
    }

    /// A writer at the first column of the bottom row that writes in
    /// `color_code` to `buffer`. The screen shows what the buffer held.
    pub fn new(color_code: ColorCode, buffer: Buffer) -> (writer: Writer)
        ensures
            writer@ == (Screen { column: 0, color: color_code, grid: buffer@ }),
            writer@.wf(),
    {
        proof {
            buffer.lemma_is_grid();
        }
        Writer { column_position: 0, color_code, buffer }
    }

    /// The column of the bottom row at which the next character will be
    /// stored; `BUFFER_WIDTH` when the row is full.
    pub fn column_position(&self) -> (column: usize)
        ensures
            column == self@.column,
            column <= BUFFER_WIDTH,
    {
        proof {
            use_type_invariant(self);
        }
        self.column_position
    }

    /// The colour in which the writer writes.
    pub fn color_code(&self) -> (color_code: ColorCode)
        ensures
            color_code == self@.color,
    {
        self.color_code
    }

    /// The text buffer, to read what is on the screen.
    pub fn buffer(&self) -> (buffer: &Buffer)
        ensures
            buffer@ == self@.grid,
            is_grid(buffer@),
    {
        proof {
            self.buffer.lemma_is_grid();
        }
        &self.buffer
    }

    /// Writes one byte as it is. A newline scrolls the screen. Any other
    /// byte is stored at the current column of the bottom row, in the current
    /// colour, after a scroll if that row is full, and the column moves on by
    /// one.
    pub fn write_byte(&mut self, byte: u8)
        ensures
            final(self)@ == old(self)@.write_byte(byte),
            final(self)@.wf(),
            spec_is_printable(byte) && old(self)@.column < BUFFER_WIDTH ==> {
                &&& final(self)@.column == old(self)@.column + 1
                &&& final(self)@.grid[BUFFER_HEIGHT - 1][old(self)@.column as int] == (ScreenChar {
                    ascii_char: byte,
                    color_code: old(self)@.color,
                })
            },
    {
        proof {
            use_type_invariant(&*self);
            self.buffer.lemma_is_grid();
        }
        if byte == NEWLINE {
            self.new_line();
        } else {
            if self.column_position >= BUFFER_WIDTH {
                self.new_line();
            }
            proof {
                use_type_invariant(&*self);
                self.buffer.lemma_is_grid();
            }
            let row = BUFFER_HEIGHT - 1;
            let col = self.column_position;
            let color_code = self.color_code;

            self.buffer.write(row, col, ScreenChar { ascii_char: byte, color_code });
            self.column_position += 1;
        }
    }

    /// Writes a string byte by byte, in its UTF-8 encoding. A printable
    /// ASCII byte or a newline is written as it is, every other byte as the
    /// placeholder glyph, so a character outside ASCII shows as one
    /// placeholder for each of its bytes.
    pub fn write_string(&mut self, s: &str)
        ensures
            final(self)@ == old(self)@.write_string(s.spec_bytes()),
            final(self)@.wf(),
    {
        let bytes = s.as_bytes();
        let ghost before = self@;
        let ghost shown = bytes@.map_values(|byte: u8| spec_sanitize(byte));
        proof {
            use_type_invariant(&*self);
            self.buffer.lemma_is_grid();
        }
        for i in 0..bytes.len()
            invariant
                bytes@ == s.spec_bytes(),
                shown == bytes@.map_values(|byte: u8| spec_sanitize(byte)),
                self@ == before.write_bytes(shown.take(i as int)),
                self@.wf(),
        {
            proof {
                assert(shown.take(i + 1).drop_last() =~= shown.take(i as int));
            }
            self.write_byte(sanitize(bytes[i]));
        }
        proof {
            assert(shown.take(bytes@.len() as int) =~= shown);
        }
    }

    /// Scrolls the screen: every row but the first moves up by one, the
    /// bottom row becomes blank in the current colour, and the next character
    /// goes to its first column.
    pub fn new_line(&mut self)
        ensures
            final(self)@ == old(self)@.new_line(),
            final(self)@.wf(),
            forall|row: int|
                1 <= row < BUFFER_HEIGHT ==> #[trigger] final(self)@.grid[row - 1] == old(
                    self,
                )@.grid[row],
            forall|col: int|
                0 <= col < BUFFER_WIDTH ==> #[trigger] final(self)@.grid[BUFFER_HEIGHT - 1][col]
                    == ScreenChar::spec_blank(old(self)@.color),
            final(self)@.column == 0,
            final(self)@.color == old(self)@.color,
    {
        let ghost before = self@;
        proof {
            use_type_invariant(&*self);
            self.buffer.lemma_is_grid();
        }
        for row in 1..BUFFER_HEIGHT
            invariant
                before.wf(),
                self@.column == before.column,
                self@.color == before.color,
                is_grid(self@.grid),
                forall|r: int| 0 <= r < row - 1 ==> self@.grid[r] == before.grid[r + 1],
                forall|r: int| row - 1 <= r < BUFFER_HEIGHT ==> self@.grid[r] == before.grid[r],
        {
            let ghost above = self@.grid[row - 1];
            for col in 0..BUFFER_WIDTH
                invariant
                    1 <= row < BUFFER_HEIGHT,
                    before.wf(),
                    self@.column == before.column,
                    self@.color == before.color,
                    is_grid(self@.grid),
                    forall|r: int| 0 <= r < row - 1 ==> self@.grid[r] == before.grid[r + 1],
                    forall|r: int| row <= r < BUFFER_HEIGHT ==> self@.grid[r] == before.grid[r],
                    forall|c: int|
                        0 <= c < col ==> self@.grid[row - 1][c] == before.grid[row as int][c],
                    forall|c: int| col <= c < BUFFER_WIDTH ==> self@.grid[row - 1][c] == above[c],
            {
                let character = self.buffer.read(row, col);
                self.buffer.write(row - 1, col, character);
            }
            proof {
                assert(self@.grid[row - 1] =~= before.grid[row as int]);
            }
        }
        self.clear_row(BUFFER_HEIGHT - 1);
        self.column_position = 0;
        proof {
            assert(self@.grid =~= before.new_line().grid);
        }
    }

    /// Fills row `row` with blank cells in the current colour: every column
    /// of the row is stored anew. Nothing else changes.
    pub fn clear_row(&mut self, row: usize)
        requires
            row < BUFFER_HEIGHT,
        ensures
            final(self)@ == old(self)@.clear_row(row as int),
            final(self)@.wf(),
            forall|col: int|
                0 <= col < BUFFER_WIDTH ==> #[trigger] final(self)@.grid[row as int][col]
                    == ScreenChar::spec_blank(old(self)@.color),
            forall|other: int|
                0 <= other < BUFFER_HEIGHT && other != row ==> #[trigger] final(self)@.grid[other]
                    == old(self)@.grid[other],
    {
        let blank_char = ScreenChar::blank(self.color_code);
        let ghost before = self@;
        proof {
            use_type_invariant(&*self);
            self.buffer.lemma_is_grid();
        }
        for col in 0..BUFFER_WIDTH
            invariant
                row < BUFFER_HEIGHT,
                blank_char == ScreenChar::spec_blank(before.color),
                before.wf(),
                self@.column == before.column,
                self@.color == before.color,
                is_grid(self@.grid),
                forall|r: int| 0 <= r < BUFFER_HEIGHT && r != row ==> self@.grid[r] == before.grid[r],
                forall|c: int| 0 <= c < col ==> self@.grid[row as int][c] == blank_char,
                forall|c: int|
                    col <= c < BUFFER_WIDTH ==> self@.grid[row as int][c] == before.grid[row as int][c],
        {
            self.buffer.write(row, col, blank_char);
        }
        proof {
            assert(self@.grid[row as int] =~= Screen::blank_row(before.color));
            assert(self@.grid =~= before.clear_row(row as int).grid);
        }
    }
}

/// `core::fmt::Error`, the error of the formatting traits. The writer never
/// returns it.
#[verifier::external_type_specification]
#[verifier::external_body]
pub struct ExFmtError(core::fmt::Error);

/// The writer is a sink for formatted text: each piece of text that the
/// formatting machinery hands over is written as a string, and writing never
/// fails.
impl core::fmt::Write for Writer {
    fn write_str(&mut self, s: &str) -> (result: core::fmt::Result)
        ensures
            result is Ok,
            final(self)@ == old(self)@.write_string(s.spec_bytes()),
            final(self)@.wf(),
    {
        self.write_string(s);
        Ok(())
    }
}

/// Prints `text` through `writer`, with no newline after it.
pub fn _print(writer: &mut Writer, text: &str)
    ensures
        final(writer)@ == old(writer)@.write_string(text.spec_bytes()),
        final(writer)@.wf(),
{
    writer.write_string(text);
}

/// Prints `text` through `writer` and ends the line.
pub fn _println(writer: &mut Writer, text: &str)
    ensures
        final(writer)@ == old(writer)@.write_string(text.spec_bytes()).new_line(),
        final(writer)@ == old(writer)@.write_string(text.spec_bytes().push(NEWLINE)),
        final(writer)@.wf(),
{
    writer.write_string(text);
    writer.write_byte(NEWLINE);
    proof {
        let bytes = text.spec_bytes();
        lemma_printable_written_unchanged(old(writer)@.write_string(bytes), NEWLINE);
        lemma_write_string_concat(old(writer)@, bytes, seq![NEWLINE]);
        assert(bytes + seq![NEWLINE] =~= bytes.push(NEWLINE));
    }
}

} // verus!
