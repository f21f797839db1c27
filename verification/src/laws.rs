//! What holds of the writer's operations on every valid state, proved over
//! the model in [`crate::screen`].

use vstd::prelude::*;
use crate::buffer::{is_grid, BUFFER_HEIGHT, BUFFER_WIDTH};
use crate::cell::ScreenChar;
use crate::screen::{
    spec_is_displayable, spec_is_printable, spec_sanitize, Screen, NEWLINE, PLACEHOLDER,
};

verus! {

/// Every operation of the writer leads from a valid state to a valid state:
/// the grid keeps its shape and the column stays within `0..=BUFFER_WIDTH`.
pub proof fn lemma_operations_keep_wf(s: Screen, byte: u8, row: int)
    requires
        s.wf(),
        0 <= row < BUFFER_HEIGHT,
    ensures
        s.clear_row(row).wf(),
        s.new_line().wf(),
        s.write_byte(byte).wf(),
{
    assert(is_grid(s.new_line().grid));
    assert(is_grid(s.new_line().put(byte).grid));
}

/// Writing any bytes leads from a valid state to a valid state.
pub proof fn lemma_write_bytes_keeps_wf(s: Screen, bytes: Seq<u8>)
    requires
        s.wf(),
    ensures
        s.write_bytes(bytes).wf(),
    decreases bytes.len(),
{
    if bytes.len() > 0 {
        lemma_write_bytes_keeps_wf(s, bytes.drop_last());
        lemma_operations_keep_wf(s.write_bytes(bytes.drop_last()), bytes.last(), 0);
    }
}

/// A printable byte written while the bottom row has room is stored at the
/// column the writer was at, in the writer's colour; the column moves on by
/// one, and no other cell changes.
pub proof fn lemma_write_byte_places(s: Screen, byte: u8)
    requires
        s.wf(),
        s.column < BUFFER_WIDTH,
        spec_is_printable(byte),
    ensures
        !s.scrolls_on(byte),
        s.write_byte(byte) == s.put(byte),
        s.write_byte(byte).grid[BUFFER_HEIGHT - 1][s.column as int] == (ScreenChar {
            ascii_char: byte,
            color_code: s.color,
        }),
        s.write_byte(byte).column == s.column + 1,
        s.write_byte(byte).color == s.color,
        forall|row: int, col: int|
            0 <= row < BUFFER_HEIGHT && 0 <= col < BUFFER_WIDTH && !(row == BUFFER_HEIGHT - 1
                && col == s.column) ==> #[trigger] s.write_byte(byte).grid[row][col]
                == s.grid[row][col],
{
}

/// A printable byte written while the bottom row is full goes to the first
/// column of the bottom row after one scroll, and the column becomes one.
pub proof fn lemma_write_byte_wraps(s: Screen, byte: u8)
    requires
        s.wf(),
        s.column == BUFFER_WIDTH,
        spec_is_printable(byte),
    ensures
        s.scrolls_on(byte),
        s.write_byte(byte) == s.new_line().put(byte),
        s.write_byte(byte).column == 1,
        s.write_byte(byte).grid[BUFFER_HEIGHT - 1][0] == (ScreenChar {
            ascii_char: byte,
            color_code: s.color,
        }),
        forall|col: int|
            1 <= col < BUFFER_WIDTH ==> #[trigger] s.write_byte(byte).grid[BUFFER_HEIGHT - 1][col]
                == ScreenChar::spec_blank(s.color),
        forall|row: int|
            1 <= row < BUFFER_HEIGHT ==> #[trigger] s.write_byte(byte).grid[row - 1] == s.grid[row],
{
}

/// Written as it is, a byte other than the newline is handled as the
/// placeholder byte is in everything but the character stored: the screen
/// scrolls or not alike, the same cell is written in the same colour, the
/// column moves on alike, and no other cell differs.
pub proof fn lemma_write_byte_like_placeholder(s: Screen, byte: u8)
    requires
        s.wf(),
        byte != NEWLINE,
    ensures
        s.scrolls_on(byte) == s.scrolls_on(PLACEHOLDER),
        s.write_byte(byte).column == s.write_byte(PLACEHOLDER).column,
        s.write_byte(byte).color == s.write_byte(PLACEHOLDER).color,
        forall|row: int, col: int|
            0 <= row < BUFFER_HEIGHT && 0 <= col < BUFFER_WIDTH ==> (#[trigger] s.write_byte(
                byte,
            ).grid[row][col]).color_code == s.write_byte(PLACEHOLDER).grid[row][col].color_code,
        forall|row: int, col: int|
            0 <= row < BUFFER_HEIGHT && 0 <= col < BUFFER_WIDTH && !(row == BUFFER_HEIGHT - 1
                && col + 1 == s.write_byte(byte).column) ==> #[trigger] s.write_byte(
                byte,
            ).grid[row][col] == s.write_byte(PLACEHOLDER).grid[row][col],
        s.write_byte(byte).grid[BUFFER_HEIGHT - 1][s.write_byte(byte).column - 1].ascii_char
            == byte,
{
    assert(is_grid(s.new_line().grid));
}

/// In a string, a byte that is neither printable nor the newline is written
/// exactly as the placeholder byte is.
pub proof fn lemma_unprintable_written_as_placeholder(s: Screen, byte: u8)
    requires
        !spec_is_printable(byte),
        byte != NEWLINE,
    ensures
        s.write_string(seq![byte]) == s.write_byte(PLACEHOLDER),
{
    let shown = seq![byte].map_values(|b: u8| spec_sanitize(b));
    assert(shown =~= seq![PLACEHOLDER]);
    lemma_write_one(s, PLACEHOLDER);
}

/// In a string, a printable byte or a newline is written as it is.
pub proof fn lemma_printable_written_unchanged(s: Screen, byte: u8)
    requires
        spec_is_printable(byte) || byte == NEWLINE,
    ensures
        s.write_string(seq![byte]) == s.write_byte(byte),
{
    let shown = seq![byte].map_values(|b: u8| spec_sanitize(b));
    assert(shown =~= seq![byte]);
    lemma_write_one(s, byte);
}

/// Writing a sequence of one byte is writing that byte.
pub proof fn lemma_write_one(s: Screen, byte: u8)
    ensures
        s.write_bytes(seq![byte]) == s.write_byte(byte),
{
    assert(seq![byte].drop_last() =~= Seq::<u8>::empty());
    assert(s.write_bytes(seq![byte].drop_last()) == s);
}

/// Writing two sequences of bytes one after the other is writing their
/// concatenation.
pub proof fn lemma_write_bytes_concat(s: Screen, first: Seq<u8>, second: Seq<u8>)
    ensures
        s.write_bytes(first + second) == s.write_bytes(first).write_bytes(second),
    decreases second.len(),
{
    if second.len() == 0 {
        assert(first + second =~= first);
    } else {
        lemma_write_bytes_concat(s, first, second.drop_last());
        assert((first + second).drop_last() =~= first + second.drop_last());
        assert((first + second).last() == second.last());
    }
}

/// Writing two strings one after the other is writing their concatenation.
pub proof fn lemma_write_string_concat(s: Screen, first: Seq<u8>, second: Seq<u8>)
    ensures
        s.write_string(first + second) == s.write_string(first).write_string(second),
{
    let shown = |b: u8| spec_sanitize(b);
    assert((first + second).map_values(shown) =~= first.map_values(shown) + second.map_values(
        shown,
    ));
    lemma_write_bytes_concat(s, first.map_values(shown), second.map_values(shown));
}

/// A string of printable bytes is written byte for byte.
pub proof fn lemma_printable_string_unchanged(s: Screen, bytes: Seq<u8>)
    requires
        forall|i: int| 0 <= i < bytes.len() ==> spec_is_printable(#[trigger] bytes[i]),
    ensures
        s.write_string(bytes) == s.write_bytes(bytes),
{
    assert(bytes.map_values(|b: u8| spec_sanitize(b)) =~= bytes);
}

/// Printable bytes that fit on the bottom row are written on it left to
/// right, starting at the column the writer was at, with no scroll: no other
/// cell changes, and the column moves on by the number of bytes.
pub proof fn lemma_fill_row(s: Screen, bytes: Seq<u8>)
    requires
        s.wf(),
        s.column + bytes.len() <= BUFFER_WIDTH,
        forall|i: int| 0 <= i < bytes.len() ==> spec_is_printable(#[trigger] bytes[i]),
    ensures
        s.write_string(bytes) == s.write_bytes(bytes),
        s.scroll_count(bytes) == 0,
        s.write_bytes(bytes).wf(),
        s.write_bytes(bytes).column == s.column + bytes.len(),
        s.write_bytes(bytes).color == s.color,
        forall|row: int|
            0 <= row < BUFFER_HEIGHT - 1 ==> #[trigger] s.write_bytes(bytes).grid[row]
                == s.grid[row],
        forall|col: int|
            s.column <= col < s.column + bytes.len() ==> #[trigger] s.write_bytes(
                bytes,
            ).grid[BUFFER_HEIGHT - 1][col] == (ScreenChar {
                ascii_char: bytes[col - s.column],
                color_code: s.color,
            }),
        forall|col: int|
            0 <= col < BUFFER_WIDTH && !(s.column <= col < s.column + bytes.len())
                ==> #[trigger] s.write_bytes(bytes).grid[BUFFER_HEIGHT - 1][col]
                == s.grid[BUFFER_HEIGHT - 1][col],
    decreases bytes.len(),
{
    lemma_printable_string_unchanged(s, bytes);
    if bytes.len() > 0 {
        let front = bytes.drop_last();
        lemma_fill_row(s, front);
        lemma_write_byte_places(s.write_bytes(front), bytes.last());
    }
}

/// One printable byte more than fits on the bottom row causes exactly one
/// scroll, after the row was filled and before that byte is stored: the
/// filled row moves up by one with the rows above it, the byte stands alone
/// at the start of a blank bottom row, and the column is one.
pub proof fn lemma_overflow_scrolls_once(s: Screen, bytes: Seq<u8>, last: u8)
    requires
        s.wf(),
        s.column + bytes.len() == BUFFER_WIDTH,
        forall|i: int| 0 <= i < bytes.len() ==> spec_is_printable(#[trigger] bytes[i]),
        spec_is_printable(last),
    ensures
        s.write_string(bytes.push(last)) == s.write_bytes(bytes.push(last)),
        s.scroll_count(bytes) == 0,
        s.scroll_count(bytes.push(last)) == 1,
        s.write_bytes(bytes.push(last)) == s.write_bytes(bytes).new_line().put(last),
        s.write_bytes(bytes.push(last)).column == 1,
        s.write_bytes(bytes.push(last)).grid[BUFFER_HEIGHT - 1][0] == (ScreenChar {
            ascii_char: last,
            color_code: s.color,
        }),
        forall|col: int|
            1 <= col < BUFFER_WIDTH ==> #[trigger] s.write_bytes(
                bytes.push(last),
            ).grid[BUFFER_HEIGHT - 1][col] == ScreenChar::spec_blank(s.color),
        forall|row: int|
            1 <= row < BUFFER_HEIGHT - 1 ==> #[trigger] s.write_bytes(bytes.push(last)).grid[row
                - 1] == s.grid[row],
        s.write_bytes(bytes.push(last)).grid[BUFFER_HEIGHT - 2] == s.write_bytes(
            bytes,
        ).grid[BUFFER_HEIGHT - 1],
{
    lemma_fill_row(s, bytes);
    lemma_printable_string_unchanged(s, bytes.push(last));
    assert(bytes.push(last).drop_last() =~= bytes);
    lemma_write_byte_wraps(s.write_bytes(bytes), last);
}

/// A scroll moves every row but the first up by one and keeps it as it was,
/// left to right; the bottom row becomes blank in the current colour; the
/// column becomes zero. What the first row held is gone.
pub proof fn lemma_new_line_shifts(s: Screen)
    requires
        s.wf(),
    ensures
        forall|row: int| 1 <= row < BUFFER_HEIGHT ==> #[trigger] s.new_line().grid[row - 1] == s.grid[row],
        forall|col: int|
            0 <= col < BUFFER_WIDTH ==> #[trigger] s.new_line().grid[BUFFER_HEIGHT - 1][col]
                == ScreenChar::spec_blank(s.color),
        s.new_line().column == 0,
        s.new_line().color == s.color,
        s.new_line().wf(),
{
}

/// After a row was cleared, every cell of it is blank in the current
/// colour; the other rows, the column and the colour are as before.
pub proof fn lemma_clear_row_blanks(s: Screen, row: int)
    requires
        s.wf(),
        0 <= row < BUFFER_HEIGHT,
    ensures
        forall|col: int|
            0 <= col < BUFFER_WIDTH ==> #[trigger] s.clear_row(row).grid[row][col]
                == ScreenChar::spec_blank(s.color),
        forall|other: int|
            0 <= other < BUFFER_HEIGHT && other != row ==> #[trigger] s.clear_row(row).grid[other]
                == s.grid[other],
        s.clear_row(row).column == s.column,
        s.clear_row(row).color == s.color,
        s.clear_row(row).wf(),
{
}

/// What a string writes is always displayable: a printable character, the
/// placeholder, or the newline, which is never stored.
pub proof fn lemma_sanitize_displayable(byte: u8)
    ensures
        spec_is_displayable(spec_sanitize(byte)) || spec_sanitize(byte) == NEWLINE,
        spec_sanitize(byte) == NEWLINE <==> byte == NEWLINE,
        spec_sanitize(spec_sanitize(byte)) == spec_sanitize(byte),
{
}

/// On a screen whose every cell shows a printable character or the
/// placeholder, scrolling, clearing a row and writing a string leave every
/// cell so.
pub proof fn lemma_write_string_keeps_displayable(s: Screen, bytes: Seq<u8>, row: int)
    requires
        s.wf(),
        s.displayable(),
        0 <= row < BUFFER_HEIGHT,
    ensures
        s.new_line().displayable(),
        s.clear_row(row).displayable(),
        s.write_string(bytes).displayable(),
        s.write_string(bytes).wf(),
{
    lemma_sanitized_bytes_keep_displayable(s, bytes.map_values(|b: u8| spec_sanitize(b)));
}

/// Writing bytes that are printable, the placeholder or the newline keeps
/// every cell of a displayable screen displayable.
pub proof fn lemma_sanitized_bytes_keep_displayable(s: Screen, bytes: Seq<u8>)
    requires
        s.wf(),
        s.displayable(),
        forall|i: int|
            0 <= i < bytes.len() ==> spec_is_displayable(#[trigger] bytes[i]) || bytes[i]
                == NEWLINE,
    ensures
        s.write_bytes(bytes).displayable(),
        s.write_bytes(bytes).wf(),
    decreases bytes.len(),
{
    if bytes.len() > 0 {
        let front = s.write_bytes(bytes.drop_last());
        lemma_sanitized_bytes_keep_displayable(s, bytes.drop_last());
        lemma_operations_keep_wf(front, bytes.last(), 0);
        assert(front.new_line().displayable());
        assert(front.new_line().wf());
    }
}

} // verus!
