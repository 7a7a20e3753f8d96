//! The mathematical model of the terminal: the cursor column, the attribute in
//! effect and the grid of cells, with the effect of each operation on them.

use vstd::prelude::*;
use crate::buffer::BUFFER_HEIGHT;
use crate::buffer::BUFFER_WIDTH;
use crate::buffer::ScreenChar;
use crate::buffer::is_grid;
use crate::color::ColorCode;

verus! {

/// The byte that ends a line.
pub const NEWLINE: u8 = 0x0a;

/// The byte of a blank cell.
pub const SPACE: u8 = 0x20;

/// The glyph shown in place of a byte that cannot be displayed.
pub const PLACEHOLDER: u8 = 0xfe;

/// Whether a byte is a printable ASCII character.
pub open spec fn is_printable(byte: u8) -> bool {
    0x20 <= byte <= 0x7e
}

/// The byte that is written for a byte of a string: the byte itself where it
/// is printable or ends a line, the placeholder glyph otherwise.
pub open spec fn spec_glyph(byte: u8) -> u8 {
    if is_printable(byte) || byte == NEWLINE {
        byte
    } else {
        PLACEHOLDER
    }
}

/// The byte that is written for a byte of a string.
#[verifier::when_used_as_spec(spec_glyph)]
pub fn glyph(byte: u8) -> (shown: u8)
    ensures
        shown == spec_glyph(byte),
{
    if (0x20 <= byte && byte <= 0x7e) || byte == NEWLINE {
        byte
    } else {
        PLACEHOLDER
    }
}

/// The bytes that are written for the bytes of a string.
pub open spec fn glyphs(bytes: Seq<u8>) -> Seq<u8> {
    bytes.map_values(|byte: u8| glyph(byte))
}

/// What a terminal shows and where it writes next.
pub struct Screen {
    /// The column of the bottom row at which the next character is placed.
    pub column: nat,
    /// The attribute given to every cell that is written or cleared.
    pub attribute: ColorCode,
    /// The cells, `rows[row][col]`, row 0 at the top.
    pub rows: Seq<Seq<ScreenChar>>,
}

impl Screen {
    /// The grid has the dimensions of the display and the cursor is within
    /// the bottom row or just behind its last cell.
    pub open spec fn wf(self) -> bool {
        &&& self.column <= BUFFER_WIDTH
        &&& is_grid(self.rows)
    }

    /// A space in the attribute in effect.
    pub open spec fn blank(self) -> ScreenChar {
        ScreenChar { ascii_character: SPACE, color_code: self.attribute }
    }

    /// A row of blanks.
    pub open spec fn blank_row(self) -> Seq<ScreenChar> {
        Seq::new(BUFFER_WIDTH as nat, |c: int| self.blank())
    }

    /// The screen with one row blanked.
    pub open spec fn clear_row(self, row: int) -> Screen {
        Screen { rows: self.rows.update(row, self.blank_row()), ..self }
    }

    /// The screen scrolled up by one line: every row takes the place of the
    /// one above it, the top row is lost, the bottom row is blank and the
    /// cursor is at its start.
    pub open spec fn newline(self) -> Screen {
        Screen {
            column: 0,
            attribute: self.attribute,
            rows: Seq::new(
                BUFFER_HEIGHT as nat,
                |r: int|
                    if r + 1 < BUFFER_HEIGHT {
                        self.rows[r + 1]
                    } else {
                        self.blank_row()
                    },
            ),
        }
    }

    /// The screen with a character placed at the cursor and the cursor moved
    /// one column on.
    pub open spec fn put(self, byte: u8) -> Screen
        recommends
            self.column < BUFFER_WIDTH,
    {
        Screen {
            column: self.column + 1,
            attribute: self.attribute,
            rows: self.rows.update(
                BUFFER_HEIGHT - 1,
                self.rows[BUFFER_HEIGHT - 1].update(
                    self.column as int,
                    ScreenChar { ascii_character: byte, color_code: self.attribute },
                ),
            ),
        }
    }

    /// The screen after one byte is written: a newline scrolls; any other
    /// byte is placed at the cursor, after a scroll if the bottom row is full.
    pub open spec fn write_byte(self, byte: u8) -> Screen {
        if byte == NEWLINE {
            self.newline()
        } else if self.column >= BUFFER_WIDTH {
            self.newline().put(byte)
        } else {
            self.put(byte)
        }
    }

    /// The screen after a sequence of bytes is written, first to last.
    pub open spec fn write_bytes(self, bytes: Seq<u8>) -> Screen
        decreases bytes.len(),
    {
        if bytes.len() == 0 {
            self
        } else {
            self.write_bytes(bytes.drop_last()).write_byte(bytes.last())
        }
    }

    /// The screen after the bytes of a string are written, each byte that
    /// cannot be displayed replaced by the placeholder glyph.
    pub open spec fn write_string(self, bytes: Seq<u8>) -> Screen {
        self.write_bytes(glyphs(bytes))
    }
}

} // verus!
