//! The mathematical model of the writer: what is on the screen, where the
//! next character goes, and what each operation of the writer makes of it.

use vstd::prelude::*;
use crate::buffer::{is_grid, BUFFER_HEIGHT, BUFFER_WIDTH};
use crate::cell::ScreenChar;
use crate::color::ColorCode;

verus! {

/// The byte that ends a line.
pub const NEWLINE: u8 = 0x0a;

/// The glyph shown in place of a byte that the display cannot show.
pub const PLACEHOLDER: u8 = 0xfe;

/// Whether `byte` is a printable ASCII character, a space included.
pub open spec fn spec_is_printable(byte: u8) -> bool {
    0x20 <= byte <= 0x7e
}

/// Whether `byte` is a printable ASCII character, a space included.
#[verifier::when_used_as_spec(spec_is_printable)]
pub fn is_printable(byte: u8) -> (printable: bool)
    ensures
        printable == spec_is_printable(byte),
{
    0x20 <= byte && byte <= 0x7e
}

/// Whether the display has a glyph for `byte` that a string can put on the
/// screen: a printable character or the placeholder.
pub open spec fn spec_is_displayable(byte: u8) -> bool {
    spec_is_printable(byte) || byte == PLACEHOLDER
}

/// The byte that is written for `byte` when a string is written: printable
/// bytes and the newline stand for themselves, every other byte becomes the
/// placeholder.
pub open spec fn spec_sanitize(byte: u8) -> u8 {
    if spec_is_printable(byte) || byte == NEWLINE {
        byte
    } else {
        PLACEHOLDER
    }
}

/// Replaces a byte that the display cannot show by the placeholder.
#[verifier::when_used_as_spec(spec_sanitize)]
pub fn sanitize(byte: u8) -> (shown: u8)
    ensures
        shown == spec_sanitize(byte),
{
    if is_printable(byte) || byte == NEWLINE {
        byte
    } else {
        PLACEHOLDER
    }
}

/// The state of a writer: the column of the next character, the colour in
/// which it will be written, and every cell of the screen.
pub struct Screen {
    pub column: nat,
    pub color: ColorCode,
    pub grid: Seq<Seq<ScreenChar>>,
}

impl Screen {
    /// The state is valid: the grid has the shape of the screen and the
    /// column is on the bottom row or one past its end.
    pub open spec fn wf(self) -> bool {
        &&& is_grid(self.grid)
        &&& self.column <= BUFFER_WIDTH
    }

    /// A row of blank cells in `color`.
    pub open spec fn blank_row(color: ColorCode) -> Seq<ScreenChar> {
        Seq::new(BUFFER_WIDTH as nat, |col: int| ScreenChar::spec_blank(color))
    }

    /// The state after row `row` was cleared: that row is blank in the
    /// current colour, nothing else differs.
    pub open spec fn clear_row(self, row: int) -> Screen {
        Screen { grid: self.grid.update(row, Self::blank_row(self.color)), ..self }
    }

    /// The state after a scroll: every row but the first has moved up by
    /// one, the bottom row is blank in the current colour, and the next
    /// character goes to its first column.
    pub open spec fn new_line(self) -> Screen {
        Screen {
            column: 0,
            color: self.color,
            grid: self.grid.subrange(1, BUFFER_HEIGHT as int).push(Self::blank_row(self.color)),
        }
    }

    /// The state after `byte` was stored at the current column of the bottom
    /// row, in the current colour, and the column moved on by one.
    pub open spec fn put(self, byte: u8) -> Screen {
        let bottom = BUFFER_HEIGHT - 1;
        let cell = ScreenChar { ascii_char: byte, color_code: self.color };
        Screen {
            column: self.column + 1,
            color: self.color,
            grid: self.grid.update(bottom, self.grid[bottom].update(self.column as int, cell)),
        }
    }

    /// Whether writing `byte` scrolls the screen: a newline always does, any
    /// other byte does when the bottom row is full.
    pub open spec fn scrolls_on(self, byte: u8) -> bool {
        byte == NEWLINE || self.column >= BUFFER_WIDTH
    }

    /// The state after one byte was written: the screen scrolls first if
    /// [`Self::scrolls_on`] says so, and any byte but the newline is then
    /// stored on the bottom row.
    pub open spec fn write_byte(self, byte: u8) -> Screen {
        let scrolled = if self.scrolls_on(byte) {
            self.new_line()
        } else {
            self
        };
        if byte == NEWLINE {
            scrolled
        } else {
            scrolled.put(byte)
        }
    }

    /// The state after the bytes of `bytes` were written one by one, first
    /// to last.
    pub open spec fn write_bytes(self, bytes: Seq<u8>) -> Screen
        decreases bytes.len(),
    {
        if bytes.len() == 0 {
            self
        } else {
            self.write_bytes(bytes.drop_last()).write_byte(bytes.last())
        }
    }

    /// How many times the screen scrolls while the bytes of `bytes` are
    /// written one by one.
    pub open spec fn scroll_count(self, bytes: Seq<u8>) -> nat
        decreases bytes.len(),
    {
        if bytes.len() == 0 {
            0
        } else {
            let front = bytes.drop_last();
            let last: nat = if self.write_bytes(front).scrolls_on(bytes.last()) {
                1
            } else {
                0
            };
            self.scroll_count(front) + last
        }
    }

    /// Every cell of the screen shows a printable character or the
    /// placeholder glyph.
    pub open spec fn displayable(self) -> bool {
        forall|row: int, col: int|
            0 <= row < BUFFER_HEIGHT && 0 <= col < BUFFER_WIDTH ==> spec_is_displayable(
                (#[trigger] self.grid[row][col]).ascii_char,
            )
    }

    /// The state after a string with the bytes `bytes` was written: each
    /// byte is sanitized, then written.
    pub open spec fn write_string(self, bytes: Seq<u8>) -> Screen {
        self.write_bytes(bytes.map_values(|byte: u8| spec_sanitize(byte)))
    }
}

} // verus!
