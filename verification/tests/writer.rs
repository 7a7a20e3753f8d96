use core::fmt::Write;
use vga_terminal::buffer::Buffer;
use vga_terminal::buffer::ScreenChar;
use vga_terminal::buffer::BUFFER_HEIGHT;
use vga_terminal::buffer::BUFFER_WIDTH;
use vga_terminal::color::Color;
use vga_terminal::color::ColorCode;
use vga_terminal::screen::glyph;
use vga_terminal::screen::NEWLINE;
use vga_terminal::screen::PLACEHOLDER;
use vga_terminal::screen::SPACE;
use vga_terminal::writer::Writer;
use volatile::Volatile;

const BOTTOM: usize = BUFFER_HEIGHT - 1;

fn attribute() -> ColorCode {
    ColorCode::new(Color::LightGreen, Color::Blue)
}

fn writer_over(bytes: [u8; 2]) -> Writer {
    let buffer = Buffer::new(core::array::from_fn(|_| core::array::from_fn(|_| Volatile::new(bytes))));
    Writer::new(attribute(), Box::leak(Box::new(buffer)))
}

fn blank_writer() -> Writer {
    writer_over([b' ', attribute().bits()])
}

fn characters(writer: &Writer, row: usize) -> Vec<u8> {
    (0..BUFFER_WIDTH).map(|col| writer.load(row, col).ascii_character).collect()
}

fn row_text(writer: &Writer, row: usize) -> String {
    let text = String::from_utf8(characters(writer, row)).unwrap();
    text.trim_end_matches(' ').to_string()
}

fn row_is_blank(writer: &Writer, row: usize) -> bool {
    let blank = ScreenChar { ascii_character: b' ', color_code: writer.color_code() };
    (0..BUFFER_WIDTH).all(|col| writer.load(row, col) == blank)
}

fn snapshot(writer: &Writer) -> Vec<Vec<ScreenChar>> {
    (0..BUFFER_HEIGHT)
        .map(|row| (0..BUFFER_WIDTH).map(|col| writer.load(row, col)).collect())
        .collect()
}

#[test]
fn glyph_keeps_printable_bytes_and_newline_and_replaces_the_rest() {
    assert_eq!(NEWLINE, b'\n');
    assert_eq!(SPACE, b' ');
    assert_eq!(PLACEHOLDER, 0xfe);
    for byte in 0..=255u8 {
        let expected = if (0x20..=0x7e).contains(&byte) || byte == b'\n' { byte } else { 0xfe };
        assert_eq!(glyph(byte), expected);
    }
    assert_eq!(glyph(0x1f), 0xfe);
    assert_eq!(glyph(0x20), 0x20);
    assert_eq!(glyph(0x7e), 0x7e);
    assert_eq!(glyph(0x7f), 0xfe);
    assert_eq!(glyph(b'\r'), 0xfe);
}

#[test]
fn new_writer_starts_at_column_zero_and_keeps_the_buffer() {
    let writer = writer_over([b'#', 0x07]);
    assert_eq!(writer.column_position(), 0);
    assert_eq!(writer.color_code(), attribute());
    for row in 0..BUFFER_HEIGHT {
        for col in 0..BUFFER_WIDTH {
            assert_eq!(writer.load(row, col), ScreenChar::from_bytes([b'#', 0x07]));
        }
    }
}

#[test]
fn write_byte_places_the_byte_at_the_cursor_of_the_bottom_row() {
    let mut writer = blank_writer();
    writer.write_byte(b'a');
    assert_eq!(writer.column_position(), 1);
    assert_eq!(
        writer.load(BOTTOM, 0),
        ScreenChar { ascii_character: b'a', color_code: attribute() }
    );
    writer.write_byte(b'b');
    assert_eq!(writer.column_position(), 2);
    assert_eq!(
        writer.load(BOTTOM, 1),
        ScreenChar { ascii_character: b'b', color_code: attribute() }
    );
    assert_eq!(row_text(&writer, BOTTOM), "ab");
    for row in 0..BOTTOM {
        assert!(row_is_blank(&writer, row));
    }
}

#[test]
fn write_byte_writes_any_byte_but_newline_verbatim() {
    let mut writer = blank_writer();
    writer.write_byte(0x00);
    writer.write_byte(0x7f);
    writer.write_byte(0xfe);
    writer.write_byte(0xff);
    assert_eq!(&characters(&writer, BOTTOM)[..4], &[0x00, 0x7f, 0xfe, 0xff]);
    assert_eq!(writer.column_position(), 4);
}

#[test]
fn write_byte_newline_scrolls_and_stores_nothing() {
    let mut writer = blank_writer();
    writer.write_string("top");
    writer.write_byte(b'\n');
    assert_eq!(writer.column_position(), 0);
    assert_eq!(row_text(&writer, BOTTOM - 1), "top");
    assert!(row_is_blank(&writer, BOTTOM));
    for row in 0..BUFFER_HEIGHT {
        assert!(!characters(&writer, row).contains(&b'\n'));
    }
}

#[test]
fn write_string_shows_a_short_string_at_the_start_of_the_bottom_row() {
    let text = "The quick brown fox jumps over the lazy dog ~!@#$%^&*()_+{}|:<>?";
    assert!(text.len() < BUFFER_WIDTH);
    let mut writer = blank_writer();
    writer.write_string(text);
    assert_eq!(writer.column_position(), text.len());
    for (col, byte) in text.bytes().enumerate() {
        assert_eq!(
            writer.load(BOTTOM, col),
            ScreenChar { ascii_character: byte, color_code: attribute() }
        );
    }
    for col in text.len()..BUFFER_WIDTH {
        assert_eq!(
            writer.load(BOTTOM, col),
            ScreenChar { ascii_character: b' ', color_code: attribute() }
        );
    }
}

#[test]
fn write_string_of_79_characters_fits_without_a_scroll() {
    let text = "x".repeat(79);
    let mut writer = writer_over([b'.', 0x07]);
    writer.write_string(&text);
    assert_eq!(writer.column_position(), 79);
    assert_eq!(&characters(&writer, BOTTOM)[..79], text.as_bytes());
    assert_eq!(writer.load(BOTTOM, 79), ScreenChar::from_bytes([b'.', 0x07]));
    for row in 0..BOTTOM {
        assert_eq!(characters(&writer, row), vec![b'.'; BUFFER_WIDTH]);
    }
}

#[test]
fn write_string_keeps_the_edges_of_the_printable_range() {
    let mut writer = blank_writer();
    writer.write_string(" ~");
    assert_eq!(&characters(&writer, BOTTOM)[..2], &[0x20, 0x7e]);
}

#[test]
fn write_string_of_nothing_changes_nothing() {
    let mut writer = writer_over([b'q', 0x31]);
    writer.write_string("ab");
    let before = snapshot(&writer);
    writer.write_string("");
    assert_eq!(snapshot(&writer), before);
    assert_eq!(writer.column_position(), 2);
}

#[test]
fn write_string_replaces_what_cannot_be_shown() {
    let mut writer = blank_writer();
    writer.write_string("a\tb\r\u{0}\u{1f}\u{7f}c");
    assert_eq!(
        &characters(&writer, BOTTOM)[..8],
        &[b'a', 0xfe, b'b', 0xfe, 0xfe, 0xfe, 0xfe, b'c']
    );
    assert_eq!(writer.column_position(), 8);
    for col in 0..8 {
        assert_eq!(writer.load(BOTTOM, col).color_code, attribute());
    }
}

#[test]
fn write_string_replaces_each_byte_of_a_character_beyond_ascii() {
    let mut writer = blank_writer();
    writer.write_string("\u{e9}");
    assert_eq!(writer.column_position(), 2);
    assert_eq!(&characters(&writer, BOTTOM)[..2], &[0xfe, 0xfe]);
    writer.write_string("\u{20ac}");
    assert_eq!(writer.column_position(), 5);
    writer.write_string("\u{1f600}");
    assert_eq!(writer.column_position(), 9);
    assert_eq!(&characters(&writer, BOTTOM)[..9], &[0xfe; 9]);
    assert_eq!(writer.load(BOTTOM, 9).ascii_character, b' ');
}

#[test]
fn a_full_row_does_not_scroll_until_the_next_character() {
    let line: String = (0..BUFFER_WIDTH).map(|i| (b'0' + (i % 10) as u8) as char).collect();
    let mut writer = blank_writer();
    writer.write_string("above");
    writer.write_byte(b'\n');
    writer.write_string(&line);
    assert_eq!(writer.column_position(), BUFFER_WIDTH);
    assert_eq!(characters(&writer, BOTTOM), line.as_bytes());
    assert_eq!(row_text(&writer, BOTTOM - 1), "above");

    writer.write_byte(b'!');
    assert_eq!(writer.column_position(), 1);
    assert_eq!(
        writer.load(BOTTOM, 0),
        ScreenChar { ascii_character: b'!', color_code: attribute() }
    );
    assert_eq!(row_text(&writer, BOTTOM), "!");
    assert_eq!(characters(&writer, BOTTOM - 1), line.as_bytes());
    assert_eq!(row_text(&writer, BOTTOM - 2), "above");
    for row in 0..BOTTOM - 2 {
        assert!(row_is_blank(&writer, row));
    }
}

#[test]
fn write_string_of_81_characters_scrolls_exactly_once() {
    let text: String = (0..BUFFER_WIDTH + 1).map(|i| (b'a' + (i % 26) as u8) as char).collect();
    let mut writer = blank_writer();
    writer.write_string("first");
    writer.write_byte(b'\n');
    writer.write_string("second");
    writer.write_byte(b'\n');
    writer.write_string(&text);
    assert_eq!(writer.column_position(), 1);
    assert_eq!(row_text(&writer, BOTTOM), &text[BUFFER_WIDTH..]);
    assert_eq!(characters(&writer, BOTTOM - 1), text[..BUFFER_WIDTH].as_bytes());
    assert_eq!(row_text(&writer, BOTTOM - 2), "second");
    assert_eq!(row_text(&writer, BOTTOM - 3), "first");
}

#[test]
fn a_newline_in_a_string_ends_the_line() {
    let mut writer = blank_writer();
    writer.write_string("one\ntwo\n\nfour");
    assert_eq!(row_text(&writer, BOTTOM - 3), "one");
    assert_eq!(row_text(&writer, BOTTOM - 2), "two");
    assert_eq!(row_text(&writer, BOTTOM - 1), "");
    assert_eq!(row_text(&writer, BOTTOM), "four");
    assert_eq!(writer.column_position(), 4);
}

#[test]
fn newline_moves_every_row_up_by_one() {
    let mut writer = blank_writer();
    for row in 0..BUFFER_HEIGHT {
        writer.write_string(&format!("row {}", row));
        if row < BOTTOM {
            writer.newline();
        }
    }
    for row in 0..BUFFER_HEIGHT {
        assert_eq!(row_text(&writer, row), format!("row {}", row));
    }
    let before = snapshot(&writer);
    writer.newline();
    assert_eq!(writer.column_position(), 0);
    let after = snapshot(&writer);
    for row in 0..BOTTOM {
        assert_eq!(after[row], before[row + 1]);
    }
    assert!(row_is_blank(&writer, BOTTOM));
}

#[test]
fn newline_blanks_the_bottom_row_in_the_current_attribute() {
    let mut writer = writer_over([b'z', 0x07]);
    writer.newline();
    for col in 0..BUFFER_WIDTH {
        assert_eq!(
            writer.load(BOTTOM, col),
            ScreenChar { ascii_character: b' ', color_code: attribute() }
        );
    }
    for row in 0..BOTTOM {
        assert_eq!(characters(&writer, row), vec![b'z'; BUFFER_WIDTH]);
    }
}

#[test]
fn newlines_scroll_one_line_each() {
    for count in 1..=30usize {
        let mut writer = blank_writer();
        for row in 0..BOTTOM {
            writer.write_string(&format!("line {}", row));
            writer.newline();
        }
        let before = snapshot(&writer);
        writer.write_string(&"\n".repeat(count));
        let after = snapshot(&writer);
        let moved = count.min(24);
        assert_eq!(writer.column_position(), 0);
        for row in 0..BUFFER_HEIGHT {
            if row + moved < BUFFER_HEIGHT {
                assert_eq!(after[row], before[row + moved]);
            } else {
                assert!(row_is_blank(&writer, row));
            }
        }
        if count >= 24 {
            for row in 0..BUFFER_HEIGHT {
                assert!(row_is_blank(&writer, row));
            }
        }
    }
}

#[test]
fn newlines_keep_a_written_bottom_row_until_the_25th() {
    let mut writer = blank_writer();
    writer.write_string("kept");
    writer.write_string(&"\n".repeat(24));
    assert_eq!(row_text(&writer, 0), "kept");
    for row in 1..BUFFER_HEIGHT {
        assert!(row_is_blank(&writer, row));
    }
    writer.write_byte(b'\n');
    for row in 0..BUFFER_HEIGHT {
        assert!(row_is_blank(&writer, row));
    }
}

#[test]
fn clear_row_blanks_one_row_and_no_other() {
    let mut writer = writer_over([b'm', 0x07]);
    writer.write_string("abc");
    writer.clear_row(10);
    assert!(row_is_blank(&writer, 10));
    assert_eq!(writer.column_position(), 3);
    for row in 0..BUFFER_HEIGHT {
        if row != 10 {
            assert!(!row_is_blank(&writer, row));
        }
    }
    assert_eq!(&characters(&writer, BOTTOM)[..4], b"abcm");
    writer.clear_row(0);
    writer.clear_row(BOTTOM);
    assert!(row_is_blank(&writer, 0));
    assert!(row_is_blank(&writer, BOTTOM));
    assert_eq!(writer.column_position(), 3);
}

#[test]
fn clear_row_is_idempotent() {
    let mut writer = writer_over([b'm', 0x07]);
    writer.clear_row(5);
    let once = snapshot(&writer);
    writer.clear_row(5);
    assert_eq!(snapshot(&writer), once);

    let mut blank = blank_writer();
    let before = snapshot(&blank);
    blank.clear_row(12);
    assert_eq!(snapshot(&blank), before);
}

#[test]
fn two_writes_in_a_row_are_one_write() {
    let mut apart = blank_writer();
    apart.write_string("A");
    apart.write_string("B");
    assert_eq!(row_text(&apart, BOTTOM), "AB");
    assert_eq!(apart.column_position(), 2);

    let mut joined = blank_writer();
    joined.write_string("AB");
    assert_eq!(snapshot(&apart), snapshot(&joined));

    let first = "x".repeat(70);
    let second = "tail that wraps\nand goes on";
    let mut apart = blank_writer();
    apart.write_string(&first);
    apart.write_string(second);
    let mut joined = blank_writer();
    joined.write_string(&format!("{}{}", first, second));
    assert_eq!(snapshot(&apart), snapshot(&joined));
    assert_eq!(apart.column_position(), joined.column_position());
}

#[test]
fn write_str_writes_the_string_and_succeeds() {
    let mut writer = blank_writer();
    assert!(writer.write_str("ok\u{7f}").is_ok());
    assert_eq!(&characters(&writer, BOTTOM)[..3], &[b'o', b'k', 0xfe]);
    assert_eq!(writer.column_position(), 3);
}

#[test]
fn the_cursor_never_leaves_the_row() {
    let mut writer = blank_writer();
    for i in 0..1000usize {
        writer.write_byte(b'a' + (i % 26) as u8);
        assert!(writer.column_position() >= 1);
        assert!(writer.column_position() <= BUFFER_WIDTH);
    }
    assert_eq!(writer.column_position(), 1000 - 12 * BUFFER_WIDTH);
}
