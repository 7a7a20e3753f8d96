//! The writer: it places characters in the bottom row of the display buffer,
//! wraps at the end of the row and scrolls the rows up.

use vstd::prelude::*;
use vstd::string::StringSliceAdditionalSpecFns;
use crate::buffer::BUFFER_HEIGHT;
use crate::buffer::BUFFER_WIDTH;
use crate::buffer::Buffer;
use crate::buffer::ScreenChar;
use crate::color::ColorCode;
use crate::screen::NEWLINE;
use crate::screen::SPACE;
use crate::screen::Screen;
use crate::screen::glyph;
use crate::screen::glyphs;

verus! {

/// Writes text to a display buffer that it alone has access to.
pub struct Writer {
    column_position: usize,
    color_code: ColorCode,
    buffer: &'static mut Buffer,
}

impl View for Writer {
    type V = Screen;

    closed spec fn view(&self) -> Screen {
        Screen {
            column: self.column_position as nat,
            attribute: self.color_code,
            rows: self.buffer@,
        }
    }
}

impl Writer {
    #[verifier::type_invariant]
    spec fn cursor_in_row(self) -> bool {
        self.column_position <= BUFFER_WIDTH
    }

    /// A writer at the start of the bottom row of a buffer, which it leaves
    /// as it finds it.
    pub fn new(color_code: ColorCode, buffer: &'static mut Buffer) -> (writer: Writer)
        ensures
            writer@ == (Screen { column: 0, attribute: color_code, rows: old(buffer)@ }),
            writer@.wf(),
    {
        proof {
            buffer.lemma_dimensions();
        }
        Writer { column_position: 0, color_code, buffer }
    }

    /// Blanks every cell of a row.
    pub fn clear_row(&mut self, row: usize)
        requires
            row < BUFFER_HEIGHT,
        ensures
            final(self)@ == old(self)@.clear_row(row as int),
            final(self)@.wf(),
    {
        proof {
            use_type_invariant(&*self);
            self.buffer.lemma_dimensions();
        }
        let blank = ScreenChar { ascii_character: SPACE, color_code: self.color_code };
        let ghost start = self@;
        let mut col: usize = 0;
        while col < BUFFER_WIDTH
            invariant
                row < BUFFER_HEIGHT,
                col <= BUFFER_WIDTH,
                blank == start.blank(),
                start.wf(),
                self@.column == start.column,
                self@.attribute == start.attribute,
                self@.rows.len() == BUFFER_HEIGHT,
                forall|r: int| 0 <= r < BUFFER_HEIGHT && r != row ==> self@.rows[r] == start.rows[r],
                self@.rows[row as int].len() == BUFFER_WIDTH,
                forall|c: int| 0 <= c < col ==> self@.rows[row as int][c] == blank,
            decreases BUFFER_WIDTH - col,
        {
            self.buffer.store(row, col, blank);
            col += 1;
        }
        proof {
            assert(self@.rows[row as int] =~= start.blank_row());
            assert(self@.rows =~= start.clear_row(row as int).rows);
        }
    }

    /// Scrolls the display up by one line: every row is copied to the row
    /// above it, the bottom row is blanked and the cursor goes to its start.
    pub fn newline(&mut self)
        ensures
            final(self)@ == old(self)@.newline(),
            final(self)@.wf(),
    {
        proof {
            use_type_invariant(&*self);
            self.buffer.lemma_dimensions();
        }
        let ghost start = self@;
        let mut row: usize = 1;
        while row < BUFFER_HEIGHT
            invariant
                1 <= row <= BUFFER_HEIGHT,
                start.wf(),
                self@.column == start.column,
                self@.attribute == start.attribute,
                self@.rows.len() == BUFFER_HEIGHT,
                forall|r: int| 0 <= r < row - 1 ==> self@.rows[r] == start.rows[r + 1],
                forall|r: int| row - 1 <= r < BUFFER_HEIGHT ==> self@.rows[r] == start.rows[r],
            decreases BUFFER_HEIGHT - row,
        {
            proof {
                use_type_invariant(&*self);
                self.buffer.lemma_dimensions();
            }
            let ghost before = self@;
            let mut col: usize = 0;
            while col < BUFFER_WIDTH
                invariant
                    1 <= row < BUFFER_HEIGHT,
                    col <= BUFFER_WIDTH,
                    before.wf(),
                    self@.column == before.column,
                    self@.attribute == before.attribute,
                    self@.rows.len() == BUFFER_HEIGHT,
                    forall|r: int|
                        0 <= r < BUFFER_HEIGHT && r != row - 1 ==> self@.rows[r] == before.rows[r],
                    self@.rows[row - 1].len() == BUFFER_WIDTH,
                    forall|c: int| 0 <= c < col ==> self@.rows[row - 1][c] == before.rows[row as int][c],
                decreases BUFFER_WIDTH - col,
            {
                let character = self.buffer.load(row, col);
                self.buffer.store(row - 1, col, character);
                col += 1;
            }
            proof {
                assert(self@.rows[row - 1] =~= before.rows[row as int]);
                assert forall|r: int| 0 <= r < row implies self@.rows[r] == start.rows[r + 1] by {
                    if r < row - 1 {
                        assert(self@.rows[r] == before.rows[r]);
                    }
                }
            }
            row += 1;
        }
        self.clear_row(BUFFER_HEIGHT - 1);
        self.column_position = 0;
        proof {
            assert(self@.rows =~= start.newline().rows);
        }
    }

    /// Writes one byte: a newline scrolls the display; any other byte is
    /// placed at the cursor in the bottom row, after a scroll if that row is
    /// full, and the cursor moves one column on.
    pub fn write_byte(&mut self, byte: u8)
        ensures
            final(self)@ == old(self)@.write_byte(byte),
            final(self)@.wf(),
    {
        if byte == NEWLINE {
            self.newline();
        } else {
            if self.column_position >= BUFFER_WIDTH {
                self.newline();
            }
            proof {
                use_type_invariant(&*self);
                self.buffer.lemma_dimensions();
            }
            let row = BUFFER_HEIGHT - 1;
            let col = self.column_position;
            self.buffer.store(row, col, ScreenChar { ascii_character: byte, color_code: self.color_code });
            self.column_position += 1;
        }
    }

    /// Writes the bytes of a string in order. A byte that is neither
    /// printable ASCII nor a newline is written as the placeholder glyph.
    pub fn write_string(&mut self, s: &str)
        ensures
            final(self)@ == old(self)@.write_string(s.spec_bytes()),
            final(self)@.wf(),
    {
        proof {
            use_type_invariant(&*self);
            self.buffer.lemma_dimensions();
        }
        let bytes = s.as_bytes();
        let ghost start = self@;
        let ghost written = glyphs(bytes@);
        let mut i: usize = 0;
        while i < bytes.len()
            invariant
                i <= bytes.len(),
                written == glyphs(bytes@),
                self@ == start.write_bytes(written.take(i as int)),
                self@.wf(),
            decreases bytes.len() - i,
        {
            let byte = bytes[i];
            proof {
                assert(written.take(i + 1).drop_last() =~= written.take(i as int));
            }
            self.write_byte(glyph(byte));
            i += 1;
        }
        proof {
            assert(written.take(i as int) =~= written);
        }
    }

    /// The column of the bottom row at which the next character is placed.
    pub fn column_position(&self) -> (column: usize)
        ensures
            column == self@.column,
            column <= BUFFER_WIDTH,
    {
        proof {
            use_type_invariant(&*self);
        }
        self.column_position
    }

    /// The attribute given to every cell that is written or cleared.
    pub fn color_code(&self) -> (code: ColorCode)
        ensures
            code == self@.attribute,
    {
        self.color_code
    }

    /// The cell that the display shows at a position.
    pub fn load(&self, row: usize, col: usize) -> (cell: ScreenChar)
        requires
            row < BUFFER_HEIGHT,
            col < BUFFER_WIDTH,
        ensures
            cell == self@.rows[row as int][col as int],
    {
        self.buffer.load(row, col)
    }
}

/// `core::fmt::Error`, the error of a formatting pass; it holds nothing.
#[verifier::external_type_specification]
#[verifier::external_body]
pub struct ExFmtError(core::fmt::Error);

impl core::fmt::Write for Writer {
    fn write_str(&mut self, s: &str) -> (result: core::fmt::Result)
        ensures
            result is Ok,
            final(self)@ == old(self)@.write_string(s.spec_bytes()),
            final(self)@.wf(),
    {
        self.write_string(s);
        Ok(())
    }
}

} // verus!
