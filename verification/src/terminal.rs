//! The terminal: one writer over the display, and the two ways to print
//! through it.

use vstd::prelude::*;
use vstd::string::StringSliceAdditionalSpecFns;
use crate::buffer::Buffer;
use crate::color::Color;
use crate::color::ColorCode;
use crate::screen::NEWLINE;
use crate::screen::Screen;
use crate::screen::glyphs;
use crate::writer::Writer;

verus! {

/// The whole terminal.
pub struct Terminal {
    pub writer: Writer,
}

impl View for Terminal {
    type V = Screen;

    open spec fn view(&self) -> Screen {
        self.writer@
    }
}

/// The attribute that a new terminal writes with: yellow on black.
pub open spec fn default_attribute() -> ColorCode {
    ColorCode::new(Color::Yellow, Color::Black)
}

impl Terminal {
    /// A terminal over a display buffer. It writes yellow on black, starts at
    /// the first column of the bottom row and leaves the buffer as it finds it.
    pub fn new(buffer: &'static mut Buffer) -> (terminal: Terminal)
        ensures
            terminal@ == (Screen {
                column: 0,
                attribute: default_attribute(),
                rows: old(buffer)@,
            }),
            terminal@.wf(),
    {
        let color_code = ColorCode::new(Color::Yellow, Color::Black);
        Terminal { writer: Writer::new(color_code, buffer) }
    }

    /// Writes a text with no line break behind it.
    pub fn print(&mut self, text: &str)
        ensures
            final(self)@ == old(self)@.write_string(text.spec_bytes()),
            final(self)@.wf(),
    {
        self.writer.write_string(text);
    }

    /// Writes a text and ends the line.
    pub fn println(&mut self, text: &str)
        ensures
            final(self)@ == old(self)@.write_string(text.spec_bytes()).newline(),
            final(self)@ == old(self)@.write_string(text.spec_bytes().push(NEWLINE)),
            final(self)@.wf(),
    {
        self.writer.write_string(text);
        self.writer.write_byte(NEWLINE);
        proof {
            let bytes = text.spec_bytes();
            assert(glyphs(bytes.push(NEWLINE)).drop_last() =~= glyphs(bytes));
        }
    }
}

/// Writes a text to a terminal with no line break behind it. The caller holds
/// the terminal for the whole of the call, so the text of one call is never
/// mixed with that of another.
pub fn _print(terminal: &mut Terminal, text: &str)
    ensures
        final(terminal)@ == old(terminal)@.write_string(text.spec_bytes()),
        final(terminal)@.wf(),
{
    terminal.print(text);
}

} // verus!
