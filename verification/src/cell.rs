//! One cell of the screen and the 16-bit word that the display keeps for it.
//!
//! The display reads two bytes for each cell, the character first and the
//! attribute second. On the little-endian machines that have this display
//! that is one 16-bit word with the character in its low byte, so a cell is
//! always loaded and stored whole.

use vstd::prelude::*;
use crate::color::ColorCode;

verus! {

/// The byte of a space, which a blank cell shows.
pub const BLANK: u8 = 0x20;

/// A character of the screen: the byte that is shown and its colours.
#[derive(Debug, Clone, Copy, PartialEq, Eq, Structural)]
pub struct ScreenChar {
    pub ascii_char: u8,
    pub color_code: ColorCode,
}

impl ScreenChar {
    /// The blank cell of a colour: a space shown in it.
    pub open spec fn spec_blank(color_code: ColorCode) -> ScreenChar {
        ScreenChar { ascii_char: BLANK, color_code }
    }

    /// A space shown in `color_code`.
    #[verifier::when_used_as_spec(spec_blank)]
    pub fn blank(color_code: ColorCode) -> (cell: ScreenChar)
        ensures
            cell == Self::spec_blank(color_code),
    {
        ScreenChar { ascii_char: BLANK, color_code }
    }

    /// The word that the display keeps for the cell: the character in the low
    /// byte, the attribute in the high byte.
    pub open spec fn spec_word(self) -> u16 {
        ((self.color_code.0 as u16) << 8) | (self.ascii_char as u16)
    }

    /// The cell that a word of the display stands for.
    pub open spec fn spec_from_word(word: u16) -> ScreenChar {
        ScreenChar {
            ascii_char: (word & 0xff) as u8,
            color_code: ColorCode((word >> 8) as u8),
        }
    }

    /// Encodes the cell as the display's word.
    #[verifier::when_used_as_spec(spec_word)]
    pub fn word(self) -> (word: u16)
        ensures
            word == self.spec_word(),
            word == 256 * self.color_code.0 + self.ascii_char,
            Self::spec_from_word(word) == self,
        no_unwind
    {
        proof {
            lemma_word_round_trip(self.ascii_char, self.color_code.0);
        }
        ((self.color_code.0 as u16) << 8) | (self.ascii_char as u16)
    }

    /// Decodes a word of the display.
    #[verifier::when_used_as_spec(spec_from_word)]
    pub fn from_word(word: u16) -> (cell: ScreenChar)
        ensures
            cell == Self::spec_from_word(word),
            cell.ascii_char == word % 256,
            cell.color_code.0 == word / 256,
            cell.spec_word() == word,
    {
        proof {
            lemma_word_split(word);
        }
        ScreenChar {
            ascii_char: (word & 0xff) as u8,
            color_code: ColorCode((word >> 8) as u8),
        }
    }
}

/// A character and an attribute packed into a word make `256 * attribute +
/// character` and come out of it unchanged.
pub proof fn lemma_word_round_trip(low: u8, high: u8)
    ensures
        ((high as u16) << 8) | (low as u16) == 256 * high + low,
        ((((high as u16) << 8) | (low as u16)) & 0xff) as u8 == low,
        ((((high as u16) << 8) | (low as u16)) >> 8) as u8 == high,
{
    assert(((high as u16) << 8) | (low as u16) == 256 * high + low) by (bit_vector);
    assert(((((high as u16) << 8) | (low as u16)) & 0xff) as u8 == low) by (bit_vector);
    assert(((((high as u16) << 8) | (low as u16)) >> 8) as u8 == high) by (bit_vector);
}

/// A word is the packing of its own two bytes, its remainder and its
/// quotient by 256.
pub proof fn lemma_word_split(word: u16)
    ensures
        ((((word >> 8) as u8) as u16) << 8) | (((word & 0xff) as u8) as u16) == word,
        (word & 0xff) as u8 == word % 256,
        (word >> 8) as u8 == word / 256,
{
    assert((word & 0xff) as u8 == word % 256) by (bit_vector);
    assert((word >> 8) as u8 == word / 256) by (bit_vector);
    assert(((((word >> 8) as u8) as u16) << 8) | (((word & 0xff) as u8) as u16) == word)
        by (bit_vector);
}

} // verus!
