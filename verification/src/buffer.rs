//! The text buffer of the display: a grid of cells in memory that the display
//! hardware reads, reached only through volatile loads and stores.

use vstd::prelude::*;
use volatile::Volatile;
use crate::cell::ScreenChar;

verus! {

/// Number of rows of the screen.
pub const BUFFER_HEIGHT: usize = 25;

/// Number of columns of the screen.
pub const BUFFER_WIDTH: usize = 80;

/// `volatile::Volatile<T>`: a value of type `T` that is only loaded and stored
/// with volatile accesses. Nothing inside it is visible to the verifier.
#[verifier::external_type_specification]
#[verifier::external_body]
#[verifier::reject_recursive_types(T)]
pub struct ExVolatile<T: Copy>(Volatile<T>);

/// The word that a volatile slot of the text buffer holds: what was last
/// stored into it, and what a load of it returns. The display reads this
/// memory and never writes it, so the word stays until the next store.
pub uninterp spec fn held_word(slot: Volatile<u16>) -> u16;

/// `Volatile::read`: a volatile load of the slot's value. Trusted: the word
/// that comes back is the one the slot holds; the slot is not changed.
#[verifier::external_body]
fn load(slot: &Volatile<u16>) -> (word: u16)
    ensures
        word == held_word(*slot),
{
    slot.read()
}

/// `Volatile::write`: a volatile store into the slot. Trusted: afterwards the
/// slot holds the word that was stored, and the store does not panic.
#[verifier::external_body]
fn store(slot: &mut Volatile<u16>, word: u16)
    ensures
        held_word(*final(slot)) == word,
    no_unwind
{
    slot.write(word)
}

/// Whether `grid` has the shape of the screen: `BUFFER_HEIGHT` rows of
/// `BUFFER_WIDTH` cells each.
pub open spec fn is_grid(grid: Seq<Seq<ScreenChar>>) -> bool {
    &&& grid.len() == BUFFER_HEIGHT
    &&& forall|row: int| 0 <= row < BUFFER_HEIGHT ==> (#[trigger] grid[row]).len() == BUFFER_WIDTH
}

/// The cells that a region of display memory shows, row by row.
pub open spec fn region_chars(
    region: [[Volatile<u16>; BUFFER_WIDTH]; BUFFER_HEIGHT],
) -> Seq<Seq<ScreenChar>> {
    Seq::new(
        BUFFER_HEIGHT as nat,
        |row: int|
            Seq::new(
                BUFFER_WIDTH as nat,
                |col: int| ScreenChar::spec_from_word(held_word(region[row][col])),
            ),
    )
}

/// The owning handle of the text buffer. It is the only way to the region it
/// was made from, and every access it makes is a volatile load or store of one
/// whole cell inside the grid.
///
/// A region of display memory must be handed to [`Buffer::new`] once only: a
/// second handle to the same memory would let the cells change behind the
/// back of the first.
pub struct Buffer {
    chars: &'static mut [[Volatile<u16>; BUFFER_WIDTH]; BUFFER_HEIGHT],
}

impl View for Buffer {
    type V = Seq<Seq<ScreenChar>>;

    closed spec fn view(&self) -> Seq<Seq<ScreenChar>> {
        region_chars(*self.chars)
    }
}

impl Buffer {
    /// Takes ownership of a region of display memory. The cells it shows are
    /// whatever the region holds at that moment.
    pub fn new(region: &'static mut [[Volatile<u16>; BUFFER_WIDTH]; BUFFER_HEIGHT]) -> (buffer:
        Buffer)
        ensures
            buffer@ == region_chars(*old(region)),
            is_grid(buffer@),
    {
        Buffer { chars: region }
    }

    /// The view of a buffer always has the shape of the screen.
    pub proof fn lemma_is_grid(&self)
        ensures
            is_grid(self@),
    {
    }

    /// Loads the cell at `row`, `col`.
    pub fn read(&self, row: usize, col: usize) -> (cell: ScreenChar)
        requires
            row < BUFFER_HEIGHT,
            col < BUFFER_WIDTH,
        ensures
            cell == self@[row as int][col as int],
    {
        ScreenChar::from_word(load(&self.chars[row][col]))
    }

    /// Stores `cell` at `row`, `col`. No other cell changes.
    pub fn write(&mut self, row: usize, col: usize, cell: ScreenChar)
        requires
            row < BUFFER_HEIGHT,
            col < BUFFER_WIDTH,
        ensures
            final(self)@ == old(self)@.update(
                row as int,
                old(self)@[row as int].update(col as int, cell),
            ),
            is_grid(final(self)@),
        no_unwind
    {
        store(&mut self.chars[row][col], cell.word());
        proof {
            let want = old(self)@.update(
                row as int,
                old(self)@[row as int].update(col as int, cell),
            );
            assert forall|r: int, c: int|
                0 <= r < BUFFER_HEIGHT && 0 <= c < BUFFER_WIDTH implies #[trigger] self@[r][c]
                == want[r][c] by {
                if r == row as int && c == col as int {
                    assert(held_word(self.chars[r][c]) == cell.spec_word());
                } else {
                    assert(self.chars[r][c] == old(self).chars[r][c]);
                }
            }
            assert(self@ =~~= want);
        }
    }
}

} // verus!
