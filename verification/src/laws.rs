//! What holds of the terminal whatever is written to it, proved over the
//! model of the screen.

use vstd::prelude::*;
use vstd::math::min;
use crate::buffer::BUFFER_HEIGHT;
use crate::buffer::BUFFER_WIDTH;
use crate::buffer::ScreenChar;
use crate::color::ColorCode;
use crate::screen::NEWLINE;
use crate::screen::PLACEHOLDER;
use crate::screen::Screen;
use crate::screen::glyph;
use crate::screen::glyphs;
use crate::screen::is_printable;

verus! {

/// Whether every byte of a sequence is a printable ASCII character.
pub open spec fn all_printable(bytes: Seq<u8>) -> bool {
    forall|i: int| 0 <= i < bytes.len() ==> is_printable(#[trigger] bytes[i])
}

/// A row with a run of its cells, from a given column on, replaced by the
/// given characters in the given attribute.
pub open spec fn overwritten(
    row: Seq<ScreenChar>,
    at: int,
    bytes: Seq<u8>,
    attribute: ColorCode,
) -> Seq<ScreenChar> {
    Seq::new(
        row.len(),
        |c: int|
            if at <= c < at + bytes.len() {
                ScreenChar { ascii_character: bytes[c - at], color_code: attribute }
            } else {
                row[c]
            },
    )
}

/// The sequence of `count` newlines.
pub open spec fn newlines(count: nat) -> Seq<u8> {
    Seq::new(count, |i: int| NEWLINE)
}

/// Whatever byte is written, the cursor stays within the bottom row or just
/// behind its last cell, and the grid keeps its dimensions.
pub proof fn write_byte_keeps_wf(screen: Screen, byte: u8)
    requires
        screen.wf(),
    ensures
        screen.write_byte(byte).wf(),
{
}

/// Whatever bytes are written, the cursor stays within the bottom row or
/// just behind its last cell, and the grid keeps its dimensions.
pub proof fn write_bytes_keeps_wf(screen: Screen, bytes: Seq<u8>)
    requires
        screen.wf(),
    ensures
        screen.write_bytes(bytes).wf(),
    decreases bytes.len(),
{
    if bytes.len() > 0 {
        write_bytes_keeps_wf(screen, bytes.drop_last());
        write_byte_keeps_wf(screen.write_bytes(bytes.drop_last()), bytes.last());
    }
}

/// A byte other than a newline is placed within the bottom row, in the
/// attribute in effect: where the row is full the display scrolls first, so
/// the cursor is before the end of the row whenever a character is placed,
/// and behind the character afterwards.
pub proof fn write_byte_places_within_row(screen: Screen, byte: u8)
    requires
        screen.wf(),
        byte != NEWLINE,
    ensures
        ({
            let after = screen.write_byte(byte);
            &&& after.column == if screen.column < BUFFER_WIDTH {
                screen.column + 1
            } else {
                1
            }
            &&& after.rows[BUFFER_HEIGHT - 1][after.column - 1] == (ScreenChar {
                ascii_character: byte,
                color_code: screen.attribute,
            })
        }),
{
}

/// Printable characters that fit in what is left of the bottom row are
/// placed there in order, each in the attribute in effect, from the cursor
/// on; the cursor ends behind the last of them and every other cell stays as
/// it was. From the start of the row this holds of any string shorter than
/// the row.
pub proof fn write_string_fills_row(screen: Screen, bytes: Seq<u8>)
    requires
        screen.wf(),
        all_printable(bytes),
        screen.column + bytes.len() <= BUFFER_WIDTH,
    ensures
        ({
            let after = screen.write_string(bytes);
            &&& after.wf()
            &&& after.column == screen.column + bytes.len()
            &&& after.attribute == screen.attribute
            &&& after.rows == screen.rows.update(
                BUFFER_HEIGHT - 1,
                overwritten(
                    screen.rows[BUFFER_HEIGHT - 1],
                    screen.column as int,
                    bytes,
                    screen.attribute,
                ),
            )
            &&& forall|c: int|
                screen.column <= c < screen.column + bytes.len() ==> #[trigger] after.rows[BUFFER_HEIGHT
                    - 1][c] == (ScreenChar {
                    ascii_character: bytes[c - screen.column],
                    color_code: screen.attribute,
                })
        }),
    decreases bytes.len(),
{
    let bottom = BUFFER_HEIGHT - 1;
    let after = screen.write_string(bytes);
    let want = screen.rows.update(
        bottom,
        overwritten(screen.rows[bottom], screen.column as int, bytes, screen.attribute),
    );
    if bytes.len() == 0 {
        assert(glyphs(bytes) =~= Seq::<u8>::empty());
        assert(want[bottom] =~= screen.rows[bottom]);
        assert(after.rows =~= want);
    } else {
        let front = bytes.drop_last();
        let last = bytes.last();
        write_string_fills_row(screen, front);
        assert(glyphs(bytes).drop_last() =~= glyphs(front));
        assert(glyphs(bytes).last() == glyph(last));
        assert(is_printable(last));
        let before = screen.write_string(front);
        assert(after == before.put(last));
        assert(after.rows[bottom] =~= want[bottom]);
        assert(after.rows =~= want);
    }
}

/// A byte of a string that is neither printable nor a newline is written as
/// the placeholder glyph: the cell behind which the cursor then stands holds
/// that glyph, and so never the byte itself unless the byte is that glyph.
pub proof fn write_string_replaces_unprintable(screen: Screen, byte: u8)
    requires
        screen.wf(),
        !is_printable(byte),
        byte != NEWLINE,
    ensures
        ({
            let after = screen.write_string(seq![byte]);
            let stored = after.rows[BUFFER_HEIGHT - 1][after.column - 1];
            &&& after == screen.write_byte(PLACEHOLDER)
            &&& 1 <= after.column <= BUFFER_WIDTH
            &&& stored == (ScreenChar { ascii_character: PLACEHOLDER, color_code: screen.attribute })
            &&& byte != PLACEHOLDER ==> stored.ascii_character != byte
        }),
{
    let written = glyphs(seq![byte]);
    assert(written =~= seq![PLACEHOLDER]);
    assert(written.drop_last() =~= Seq::<u8>::empty());
    assert(screen.write_bytes(written.drop_last()) == screen);
}

/// Whether a byte is one that a string can put on the display: a printable
/// character or the placeholder glyph.
pub open spec fn is_displayable(byte: u8) -> bool {
    is_printable(byte) || byte == PLACEHOLDER
}

/// Whether every cell of a grid shows a printable character or the
/// placeholder glyph.
pub open spec fn all_displayable(rows: Seq<Seq<ScreenChar>>) -> bool {
    forall|r: int, c: int|
        0 <= r < BUFFER_HEIGHT && 0 <= c < BUFFER_WIDTH ==> is_displayable(
            (#[trigger] rows[r][c]).ascii_character,
        )
}

/// A string puts nothing on the display but printable characters and the
/// placeholder glyph: where every cell shows one of these, every cell still
/// does after any string is written. A newline in particular is never stored.
pub proof fn write_string_keeps_cells_displayable(screen: Screen, bytes: Seq<u8>)
    requires
        screen.wf(),
        all_displayable(screen.rows),
    ensures
        screen.write_string(bytes).wf(),
        all_displayable(screen.write_string(bytes).rows),
    decreases bytes.len(),
{
    if bytes.len() == 0 {
        assert(glyphs(bytes) =~= Seq::<u8>::empty());
    } else {
        let front = bytes.drop_last();
        write_string_keeps_cells_displayable(screen, front);
        assert(glyphs(bytes).drop_last() =~= glyphs(front));
        assert(glyphs(bytes).last() == glyph(bytes.last()));
        let before = screen.write_string(front);
        assert(all_displayable(before.newline().rows));
    }
}

/// Whatever a string holds, what is written for it is what is written for
/// the string with every byte that cannot be displayed replaced beforehand.
pub proof fn write_string_writes_glyphs(screen: Screen, bytes: Seq<u8>)
    ensures
        screen.write_string(bytes) == screen.write_bytes(glyphs(bytes)),
        screen.write_string(glyphs(bytes)) == screen.write_string(bytes),
        forall|i: int|
            0 <= i < bytes.len() ==> (#[trigger] glyphs(bytes)[i] == bytes[i] <==> is_printable(
                bytes[i],
            ) || bytes[i] == NEWLINE || bytes[i] == PLACEHOLDER),
{
    assert(glyphs(glyphs(bytes)) =~= glyphs(bytes));
}

/// Clearing a row twice is clearing it once.
pub proof fn clear_row_is_idempotent(screen: Screen, row: int)
    requires
        screen.wf(),
        0 <= row < BUFFER_HEIGHT,
    ensures
        screen.clear_row(row).clear_row(row) == screen.clear_row(row),
{
    assert(screen.clear_row(row).clear_row(row).rows =~= screen.clear_row(row).rows);
}

/// Clearing a row that is blank already leaves the screen unchanged.
pub proof fn clear_row_keeps_blank_row(screen: Screen, row: int)
    requires
        screen.wf(),
        0 <= row < BUFFER_HEIGHT,
        screen.rows[row] == screen.blank_row(),
    ensures
        screen.clear_row(row) == screen,
{
    assert(screen.clear_row(row).rows =~= screen.rows);
}

/// Writing one sequence of bytes and then another is writing the two as one.
pub proof fn write_bytes_in_sequence(screen: Screen, first: Seq<u8>, second: Seq<u8>)
    ensures
        screen.write_bytes(first).write_bytes(second) == screen.write_bytes(first + second),
    decreases second.len(),
{
    if second.len() == 0 {
        assert(first + second =~= first);
    } else {
        write_bytes_in_sequence(screen, first, second.drop_last());
        assert((first + second).drop_last() =~= first + second.drop_last());
        assert((first + second).last() == second.last());
    }
}

/// Two strings written one after the other, with nothing written between
/// them, give what the two give written as one string: the second begins
/// where the first ended, and no cell of one is mixed with the other.
pub proof fn write_string_in_sequence(screen: Screen, first: Seq<u8>, second: Seq<u8>)
    ensures
        screen.write_string(first).write_string(second) == screen.write_string(first + second),
{
    write_bytes_in_sequence(screen, glyphs(first), glyphs(second));
    assert(glyphs(first + second) =~= glyphs(first) + glyphs(second));
}

/// A row is filled without a scroll; the character written after that
/// scrolls the display exactly once and lands in the first column of the new
/// bottom row. So of printable characters that overrun the bottom row by one:
/// all but the last stand in the row above the bottom, which is blank but for
/// the last, and every other row has moved up by one.
pub proof fn write_string_wraps_once(screen: Screen, bytes: Seq<u8>)
    requires
        screen.wf(),
        all_printable(bytes),
        bytes.len() >= 1,
        screen.column + bytes.len() == BUFFER_WIDTH + 1,
    ensures
        ({
            let full = screen.write_string(bytes.drop_last());
            let after = screen.write_string(bytes);
            let filled = overwritten(
                screen.rows[BUFFER_HEIGHT - 1],
                screen.column as int,
                bytes.drop_last(),
                screen.attribute,
            );
            &&& full.column == BUFFER_WIDTH
            &&& full.rows == screen.rows.update(BUFFER_HEIGHT - 1, filled)
            &&& after == full.newline().put(bytes.last())
            &&& after.column == 1
            &&& forall|r: int|
                0 <= r < BUFFER_HEIGHT - 2 ==> #[trigger] after.rows[r] == screen.rows[r + 1]
            &&& after.rows[BUFFER_HEIGHT - 2] == filled
            &&& after.rows[BUFFER_HEIGHT - 1] == screen.blank_row().update(
                0,
                ScreenChar { ascii_character: bytes.last(), color_code: screen.attribute },
            )
        }),
{
    let front = bytes.drop_last();
    let last = bytes.last();
    write_string_fills_row(screen, front);
    assert(glyphs(bytes).drop_last() =~= glyphs(front));
    assert(glyphs(bytes).last() == glyph(last));
    assert(is_printable(last));
    let full = screen.write_string(front);
    assert(full.column == BUFFER_WIDTH);
    assert(screen.write_string(bytes) == full.write_byte(last));
}

/// Newlines scroll the display one line each: after `count` of them every
/// row that is still on the display has moved up by `count`, the rows below
/// are blank, and the cursor is at the start of the bottom row.
pub proof fn newlines_scroll_by_count(screen: Screen, count: nat)
    requires
        screen.wf(),
    ensures
        ({
            let after = screen.write_string(newlines(count));
            &&& after.wf()
            &&& after.attribute == screen.attribute
            &&& after.column == if count == 0 {
                screen.column
            } else {
                0
            }
            &&& forall|r: int|
                0 <= r < BUFFER_HEIGHT ==> #[trigger] after.rows[r] == if r + count < BUFFER_HEIGHT {
                    screen.rows[r + count]
                } else {
                    screen.blank_row()
                }
        }),
    decreases count,
{
    if count == 0 {
        assert(glyphs(newlines(count)) =~= Seq::<u8>::empty());
    } else {
        let fewer = (count - 1) as nat;
        newlines_scroll_by_count(screen, fewer);
        assert(glyphs(newlines(count)).drop_last() =~= glyphs(newlines(fewer)));
        assert(glyphs(newlines(count)).last() == NEWLINE);
        let before = screen.write_string(newlines(fewer));
        assert(screen.write_string(newlines(count)) == before.newline());
        assert(before.blank_row() == screen.blank_row());
    }
}

/// Where the bottom row is blank, or fewer than 24 newlines are written,
/// `count` newlines move what the display shows up by `count` rows, and by
/// no more than 24; from 24 newlines on, every row is blank.
pub proof fn newlines_scroll_content(screen: Screen, count: nat)
    requires
        screen.wf(),
        count >= 1,
        count < BUFFER_HEIGHT - 1 || screen.rows[BUFFER_HEIGHT - 1] == screen.blank_row(),
    ensures
        ({
            let after = screen.write_string(newlines(count));
            let moved = min(count as int, BUFFER_HEIGHT - 1);
            &&& after.column == 0
            &&& forall|r: int|
                0 <= r < BUFFER_HEIGHT ==> #[trigger] after.rows[r] == if r + moved < BUFFER_HEIGHT {
                    screen.rows[r + moved]
                } else {
                    screen.blank_row()
                }
            &&& count >= BUFFER_HEIGHT - 1 ==> forall|r: int|
                0 <= r < BUFFER_HEIGHT ==> #[trigger] after.rows[r] == screen.blank_row()
        }),
{
    newlines_scroll_by_count(screen, count);
}

} // verus!
