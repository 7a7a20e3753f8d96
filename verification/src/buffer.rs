//! The display buffer: 25 rows of 80 two-byte cells, each behind a volatile
//! slot so that every load and store reaches the hardware.

use vstd::prelude::*;
use volatile::Volatile;
use crate::color::ColorCode;
use crate::color::lemma_bits_from_bits;
use crate::color::lemma_from_bits_bits;

verus! {

/// The number of rows of the display.
pub const BUFFER_HEIGHT: usize = 25;

/// The number of columns of the display.
pub const BUFFER_WIDTH: usize = 80;

/// One character position: a character byte and the attribute it is shown with.
#[derive(Debug, Clone, Copy, PartialEq, Eq, Structural)]
pub struct ScreenChar {
    pub ascii_character: u8,
    pub color_code: ColorCode,
}

impl ScreenChar {
    /// The two bytes of the cell as the hardware lays them out: the character
    /// first, the attribute second.
    pub open spec fn spec_to_bytes(self) -> Seq<u8> {
        seq![self.ascii_character, self.color_code.bits()]
    }

    /// The cell that two bytes of display memory show.
    pub open spec fn spec_from_bytes(bytes: Seq<u8>) -> ScreenChar {
        ScreenChar {
            ascii_character: bytes[0],
            color_code: ColorCode::spec_from_bits(bytes[1]),
        }
    }

    /// The two bytes of the cell as the hardware lays them out.
    pub fn to_bytes(self) -> (bytes: [u8; 2])
        ensures
            bytes@ == self.spec_to_bytes(),
        no_unwind
    {
        let bytes: [u8; 2] = [self.ascii_character, self.color_code.bits()];
        assert(bytes@ =~= self.spec_to_bytes());
        bytes
    }

    /// The cell that two bytes of display memory show.
    pub fn from_bytes(bytes: [u8; 2]) -> (cell: ScreenChar)
        ensures
            cell == ScreenChar::spec_from_bytes(bytes@),
    {
        ScreenChar { ascii_character: bytes[0], color_code: ColorCode::from_bits(bytes[1]) }
    }
}

/// A cell is recovered from its two bytes.
pub proof fn lemma_cell_round_trip(cell: ScreenChar)
    ensures
        ScreenChar::spec_from_bytes(cell.spec_to_bytes()) == cell,
{
    lemma_bits_from_bits(cell.color_code);
}

/// The two bytes of a cell are recovered from the cell that they show.
pub proof fn lemma_bytes_round_trip(bytes: Seq<u8>)
    requires
        bytes.len() == 2,
    ensures
        ScreenChar::spec_from_bytes(bytes).spec_to_bytes() == bytes,
{
    lemma_from_bits_bits(bytes[1]);
    assert(ScreenChar::spec_from_bytes(bytes).spec_to_bytes() =~= bytes);
}

/// `volatile::Volatile`, the wrapper that makes every access to the value in
/// it a volatile one. Nothing inside it is visible to the proofs.
#[verifier::external_type_specification]
#[verifier::external_body]
#[verifier::reject_recursive_types(T)]
pub struct ExVolatile<T: Copy>(Volatile<T>);

/// The two bytes that a volatile slot holds: those of the last store to it.
/// That the display does not change its own memory is taken for granted.
pub uninterp spec fn slot_bytes(slot: Volatile<[u8; 2]>) -> Seq<u8>;

/// `Volatile::read`: a volatile load. It returns a copy of the value in the
/// slot and leaves the slot as it is. Read off the crate's source, not proved.
#[verifier::external_body]
fn slot_read(slot: &Volatile<[u8; 2]>) -> (bytes: [u8; 2])
    ensures
        bytes@ == slot_bytes(*slot),
{
    slot.read()
}

/// `Volatile::write`: a volatile store. Afterwards the slot holds the value
/// given, and the call never panics. Read off the crate's source, not proved.
#[verifier::external_body]
fn slot_write(slot: &mut Volatile<[u8; 2]>, bytes: [u8; 2])
    ensures
        slot_bytes(*final(slot)) == bytes@,
    no_unwind
{
    slot.write(bytes)
}

/// The cells that a grid of slots shows, row by row.
pub open spec fn grid_of(chars: [[Volatile<[u8; 2]>; BUFFER_WIDTH]; BUFFER_HEIGHT]) -> Seq<
    Seq<ScreenChar>,
> {
    Seq::new(
        BUFFER_HEIGHT as nat,
        |r: int|
            Seq::new(
                BUFFER_WIDTH as nat,
                |c: int| ScreenChar::spec_from_bytes(slot_bytes(chars[r][c])),
            ),
    )
}

/// Whether a grid of cells has the dimensions of the display.
pub open spec fn is_grid(rows: Seq<Seq<ScreenChar>>) -> bool {
    &&& rows.len() == BUFFER_HEIGHT
    &&& forall|r: int| 0 <= r < BUFFER_HEIGHT ==> (#[trigger] rows[r]).len() == BUFFER_WIDTH
}

/// The display buffer. Its layout is that of the hardware: row after row,
/// cell after cell, two bytes to a cell.
pub struct Buffer {
    chars: [[Volatile<[u8; 2]>; BUFFER_WIDTH]; BUFFER_HEIGHT],
}

impl View for Buffer {
    type V = Seq<Seq<ScreenChar>>;

    /// The cells that the buffer shows: `self@[row][col]`.
    closed spec fn view(&self) -> Seq<Seq<ScreenChar>> {
        grid_of(self.chars)
    }
}

impl Buffer {
    /// A buffer over slots that the caller owns, for a display kept in
    /// ordinary memory.
    pub fn new(chars: [[Volatile<[u8; 2]>; BUFFER_WIDTH]; BUFFER_HEIGHT]) -> (buffer: Buffer)
        ensures
            buffer@ == grid_of(chars),
            is_grid(buffer@),
    {
        Buffer { chars }
    }

    /// The buffer always has the dimensions of the display.
    pub proof fn lemma_dimensions(&self)
        ensures
            is_grid(self@),
    {
    }

    /// Loads the cell at a position.
    pub fn load(&self, row: usize, col: usize) -> (cell: ScreenChar)
        requires
            row < BUFFER_HEIGHT,
            col < BUFFER_WIDTH,
        ensures
            cell == self@[row as int][col as int],
    {
        ScreenChar::from_bytes(slot_read(&self.chars[row][col]))
    }

    /// Stores a cell at a position and leaves every other cell as it is.
    pub fn store(&mut self, row: usize, col: usize, cell: ScreenChar)
        requires
            row < BUFFER_HEIGHT,
            col < BUFFER_WIDTH,
        ensures
            final(self)@ == old(self)@.update(
                row as int,
                old(self)@[row as int].update(col as int, cell),
            ),
        no_unwind
    {
        slot_write(&mut self.chars[row][col], cell.to_bytes());
        proof {
            let want = old(self)@.update(
                row as int,
                old(self)@[row as int].update(col as int, cell),
            );
            lemma_cell_round_trip(cell);
            assert forall|r: int| 0 <= r < BUFFER_HEIGHT implies #[trigger] self@[r] =~= want[r] by {
                assert forall|c: int| 0 <= c < BUFFER_WIDTH implies #[trigger] self@[r][c]
                    == want[r][c] by {
                    if r != row || c != col {
                        assert(self.chars[r][c] == old(self).chars[r][c]);
                    }
                }
            }
            assert(self@ =~= want);
        }
    }
}

} // verus!
