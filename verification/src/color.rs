//! Colours of the text-mode palette and the attribute byte built from two of them.

use vstd::prelude::*;

verus! {

/// The sixteen colours of the standard text-mode palette, in hardware order.
#[allow(dead_code)]
#[derive(Debug, Clone, Copy, PartialEq, Eq, Structural)]
pub enum Color {
    Black,
    Blue,
    Green,
    Cyan,
    Red,
    Magenta,
    Brown,
    LightGray,
    DarkGray,
    LightBlue,
    LightGreen,
    LightCyan,
    LightRed,
    Pink,
    Yellow,
    White,
}

impl Color {
    /// The palette index of the colour, `0` for black up to `15` for white.
    pub open spec fn spec_code(self) -> u8 {
        match self {
            Color::Black => 0,
            Color::Blue => 1,
            Color::Green => 2,
            Color::Cyan => 3,
            Color::Red => 4,
            Color::Magenta => 5,
            Color::Brown => 6,
            Color::LightGray => 7,
            Color::DarkGray => 8,
            Color::LightBlue => 9,
            Color::LightGreen => 10,
            Color::LightCyan => 11,
            Color::LightRed => 12,
            Color::Pink => 13,
            Color::Yellow => 14,
            Color::White => 15,
        }
    }

    /// The palette index of the colour as a byte.
    #[verifier::when_used_as_spec(spec_code)]
    pub fn code(self) -> (code: u8)
        ensures
            code == self.spec_code(),
            code < 16,
    {
        match self {
            Color::Black => 0,
            Color::Blue => 1,
            Color::Green => 2,
            Color::Cyan => 3,
            Color::Red => 4,
            Color::Magenta => 5,
            Color::Brown => 6,
            Color::LightGray => 7,
            Color::DarkGray => 8,
            Color::LightBlue => 9,
            Color::LightGreen => 10,
            Color::LightCyan => 11,
            Color::LightRed => 12,
            Color::Pink => 13,
            Color::Yellow => 14,
            Color::White => 15,
        }
    }
}

/// An attribute byte: background colour in the high nibble, foreground colour
/// in the low nibble. Every byte is an attribute.
#[derive(Debug, Clone, Copy, PartialEq, Eq, Structural)]
pub struct ColorCode(pub u8);

impl ColorCode {
    /// The attribute byte that pairs `foreground` with `background`.
    pub open spec fn spec_new(foreground: Color, background: Color) -> ColorCode {
        ColorCode((background.spec_code() << 4) | foreground.spec_code())
    }

    /// Packs a foreground and a background colour into one attribute byte.
    #[verifier::when_used_as_spec(spec_new)]
    pub fn new(foreground: Color, background: Color) -> (code: ColorCode)
        ensures
            code == Self::spec_new(foreground, background),
            code.0 == 16 * background.spec_code() + foreground.spec_code(),
            code.0 & 0x0f == foreground.spec_code(),
            code.0 >> 4 == background.spec_code(),
    {
        let fg: u8 = foreground.code();
        let bg: u8 = background.code();
        proof {
            lemma_pack_nibbles(fg, bg);
        }
        ColorCode((bg << 4) | fg)
    }
}

/// Two nibbles packed into a byte can be read back, and the packed byte is
/// `16 * high + low`.
pub proof fn lemma_pack_nibbles(low: u8, high: u8)
    requires
        low < 16,
        high < 16,
    ensures
        (high << 4) | low == 16 * high + low,
        ((high << 4) | low) & 0x0f == low,
        ((high << 4) | low) >> 4 == high,
{
    assert((high << 4) | low == 16 * high + low) by (bit_vector)
        requires
            low < 16,
            high < 16,
    ;
    assert(((high << 4) | low) & 0x0f == low) by (bit_vector)
        requires
            low < 16,
            high < 16,
    ;
    assert(((high << 4) | low) >> 4 == high) by (bit_vector)
        requires
            low < 16,
            high < 16,
    ;
}

} // verus!
