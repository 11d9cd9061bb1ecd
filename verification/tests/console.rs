use optios::vga_text::{
    clear_screen, print_message, set_text_color, Buffer, Color, ColorCode, ScreenChar, Writer,
    BUFFER_HEIGHT, BUFFER_WIDTH,
};
use volatile::Volatile;

fn buffer_of(word: u16) -> Buffer {
    core::array::from_fn(|_| core::array::from_fn(|_| Volatile::new(word)))
}

fn cell(glyph: u8, attribute: u8) -> ScreenChar {
    ScreenChar { ascii_character: glyph, color_code: ColorCode(attribute) }
}

fn row_text(writer: &Writer, row: usize) -> Vec<u8> {
    (0..BUFFER_WIDTH).map(|col| writer.char_at(row, col).unwrap().ascii_character).collect()
}

const YELLOW_ON_BLACK: u8 = 0x0e;

#[test]
fn palette_indices_follow_the_hardware_order() {
    assert_eq!(Color::Black.palette_index(), 0);
    assert_eq!(Color::Blue.palette_index(), 1);
    assert_eq!(Color::Green.palette_index(), 2);
    assert_eq!(Color::Cyan.palette_index(), 3);
    assert_eq!(Color::Red.palette_index(), 4);
    assert_eq!(Color::Magenta.palette_index(), 5);
    assert_eq!(Color::Brown.palette_index(), 6);
    assert_eq!(Color::LightGray.palette_index(), 7);
    assert_eq!(Color::DarkGray.palette_index(), 8);
    assert_eq!(Color::LightBlue.palette_index(), 9);
    assert_eq!(Color::LightGreen.palette_index(), 10);
    assert_eq!(Color::LightCyan.palette_index(), 11);
    assert_eq!(Color::LightRed.palette_index(), 12);
    assert_eq!(Color::Pink.palette_index(), 13);
    assert_eq!(Color::Yellow.palette_index(), 14);
    assert_eq!(Color::White.palette_index(), 15);
    assert_eq!(Color::Pink as u8, 13);
}

#[test]
fn color_code_packs_background_high_and_foreground_low() {
    assert_eq!(ColorCode::new(Color::Yellow, Color::Black), ColorCode(0x0e));
    assert_eq!(ColorCode::new(Color::White, Color::Blue), ColorCode(0x1f));
    assert_eq!(ColorCode::new(Color::Black, Color::White), ColorCode(0xf0));
    assert_eq!(ColorCode::new(Color::LightGray, Color::Red), ColorCode(0x47));
}

#[test]
fn screen_char_word_has_glyph_low_and_attribute_high() {
    assert_eq!(cell(b'A', 0x1f).encode(), 0x1f41);
    assert_eq!(ScreenChar::decode(0x1f41), cell(b'A', 0x1f));
    assert_eq!(ScreenChar::decode(0x0720), cell(b' ', 0x07));
    assert_eq!(cell(0xfe, 0xf0).encode(), 0xf0fe);
}

#[test]
fn screen_char_round_trips_through_its_word() {
    for glyph in [0u8, 1, 0x20, 0x7e, 0x7f, 0xfe, 0xff] {
        for attribute in [0u8, 0x0e, 0x70, 0xff] {
            let original = cell(glyph, attribute);
            assert_eq!(ScreenChar::decode(original.encode()), original);
        }
    }
}

#[test]
fn new_writer_starts_at_column_zero_in_yellow_on_black() {
    let mut buffer = buffer_of(0x0741);
    let writer = Writer::new(&mut buffer);
    assert_eq!(writer.column(), 0);
    assert!(!writer.wrap_pending());
    assert_eq!(writer.color_code(), ColorCode(YELLOW_ON_BLACK));
    assert_eq!(writer.char_at(0, 0), Some(cell(b'A', 0x07)));
    assert_eq!(writer.char_at(24, 79), Some(cell(b'A', 0x07)));
}

#[test]
fn char_at_knows_the_grid_bounds() {
    let mut buffer = buffer_of(0);
    let writer = Writer::new(&mut buffer);
    assert!(writer.char_at(BUFFER_HEIGHT - 1, BUFFER_WIDTH - 1).is_some());
    assert_eq!(writer.char_at(BUFFER_HEIGHT, 0), None);
    assert_eq!(writer.char_at(0, BUFFER_WIDTH), None);
}

#[test]
fn write_byte_puts_the_byte_on_the_bottom_row() {
    let mut buffer = buffer_of(0);
    let mut writer = Writer::new(&mut buffer);
    writer.write_byte(b'H');
    writer.write_byte(b'i');
    assert_eq!(writer.char_at(24, 0), Some(cell(b'H', YELLOW_ON_BLACK)));
    assert_eq!(writer.char_at(24, 1), Some(cell(b'i', YELLOW_ON_BLACK)));
    assert_eq!(writer.char_at(24, 2), Some(cell(0, 0)));
    assert_eq!(writer.char_at(23, 0), Some(cell(0, 0)));
    assert_eq!(writer.column(), 2);
}

#[test]
fn write_byte_shows_an_unprintable_byte_as_the_placeholder() {
    let mut buffer = buffer_of(0);
    let mut writer = Writer::new(&mut buffer);
    writer.write_byte(0x01);
    writer.write_byte(0xff);
    writer.write_byte(0xfe);
    writer.write_byte(0x7f);
    writer.write_byte(0x1f);
    writer.write_byte(0x20);
    writer.write_byte(0x7e);
    let shown = row_text(&writer, 24);
    assert_eq!(&shown[..8], &[0xfe, 0xfe, 0xfe, 0xfe, 0xfe, 0x20, 0x7e, 0x00]);
    assert_eq!(writer.char_at(24, 0), Some(cell(0xfe, YELLOW_ON_BLACK)));
    assert_eq!(writer.column(), 7);
}

#[test]
fn printable_text_is_reproduced_verbatim() {
    let mut buffer = buffer_of(0x0720);
    let mut writer = Writer::new(&mut buffer);
    let text = "Some test string that fits on a single line";
    writer.write_string(text);
    for (i, byte) in text.bytes().enumerate() {
        assert_eq!(writer.char_at(24, i), Some(cell(byte, YELLOW_ON_BLACK)));
    }
    assert_eq!(writer.char_at(24, text.len()), Some(cell(b' ', 0x07)));
    assert_eq!(writer.column(), text.len());
    assert_eq!(row_text(&writer, 23), vec![b' '; BUFFER_WIDTH]);
}

#[test]
fn every_printable_byte_is_shown_as_itself() {
    let mut buffer = buffer_of(0);
    let mut writer = Writer::new(&mut buffer);
    let first: Vec<u8> = (0x20u8..0x70).collect();
    let second: Vec<u8> = (0x70u8..=0x7e).collect();
    writer.write_bytes(&first);
    assert_eq!(row_text(&writer, 24), first);
    writer.write_bytes(&second);
    assert_eq!(&row_text(&writer, 23)[..], &first[..]);
    assert_eq!(&row_text(&writer, 24)[..second.len()], &second[..]);
}

#[test]
fn newline_moves_the_text_one_row_up() {
    let mut buffer = buffer_of(0x0720);
    let mut writer = Writer::new(&mut buffer);
    writer.write_string("first\nsecond");
    assert_eq!(&row_text(&writer, 23)[..5], b"first");
    assert_eq!(&row_text(&writer, 24)[..6], b"second");
    assert_eq!(writer.char_at(23, 5), Some(cell(b' ', 0x07)));
    assert_eq!(writer.char_at(24, 6), Some(cell(b' ', YELLOW_ON_BLACK)));
    assert_eq!(writer.column(), 6);
    writer.write_byte(b'\n');
    assert_eq!(&row_text(&writer, 22)[..5], b"first");
    assert_eq!(&row_text(&writer, 23)[..6], b"second");
    assert_eq!(row_text(&writer, 24), vec![b' '; BUFFER_WIDTH]);
    assert_eq!(writer.column(), 0);
}

#[test]
fn scroll_copies_each_row_to_the_row_above() {
    let mut buffer: Buffer = core::array::from_fn(|row| {
        core::array::from_fn(|col| Volatile::new(((row as u16) << 8) | col as u16))
    });
    let mut writer = Writer::new(&mut buffer);
    writer.write_byte(b'\n');
    for row in 0..BUFFER_HEIGHT - 1 {
        for col in 0..BUFFER_WIDTH {
            assert_eq!(writer.char_at(row, col), Some(cell(col as u8, row as u8 + 1)));
        }
    }
    for col in 0..BUFFER_WIDTH {
        assert_eq!(writer.char_at(BUFFER_HEIGHT - 1, col), Some(cell(b' ', YELLOW_ON_BLACK)));
    }
}

#[test]
fn scroll_blanks_the_bottom_row_in_the_current_colors() {
    let mut buffer = buffer_of(0);
    let mut writer = Writer::new(&mut buffer);
    writer.write_string("x");
    writer.set_color(Color::White, Color::Blue);
    writer.write_string("\n");
    assert_eq!(writer.char_at(23, 0), Some(cell(b'x', YELLOW_ON_BLACK)));
    for col in 0..BUFFER_WIDTH {
        assert_eq!(writer.char_at(24, col), Some(cell(b' ', 0x1f)));
    }
}

#[test]
fn unprintable_bytes_become_the_placeholder() {
    let mut buffer = buffer_of(0);
    let mut writer = Writer::new(&mut buffer);
    writer.write_bytes(&[0x00, 0x09, 0x0d, 0x1f, 0x7f, 0x80, 0xfe, 0xff]);
    for col in 0..8 {
        assert_eq!(writer.char_at(24, col), Some(cell(0xfe, YELLOW_ON_BLACK)));
    }
    assert_eq!(writer.char_at(24, 8), Some(cell(0, 0)));
    assert_eq!(writer.column(), 8);
}

#[test]
fn a_character_outside_ascii_takes_one_placeholder_for_each_byte() {
    let mut buffer = buffer_of(0);
    let mut writer = Writer::new(&mut buffer);
    writer.write_string("a\u{e9}b\u{20ac}c");
    let shown = row_text(&writer, 24);
    assert_eq!(&shown[..8], &[b'a', 0xfe, 0xfe, b'b', 0xfe, 0xfe, 0xfe, b'c']);
    assert_eq!(writer.column(), 8);
}

#[test]
fn a_full_row_leaves_the_cursor_at_column_zero_without_scrolling() {
    let mut buffer = buffer_of(0x0720);
    let mut writer = Writer::new(&mut buffer);
    writer.write_string("above\n");
    let full: Vec<u8> = (0..BUFFER_WIDTH).map(|i| b'a' + (i % 26) as u8).collect();
    writer.write_bytes(&full);
    assert_eq!(writer.column(), 0);
    assert!(writer.wrap_pending());
    assert_eq!(row_text(&writer, 24), full);
    assert_eq!(&row_text(&writer, 23)[..5], b"above");
}

#[test]
fn one_character_past_a_full_row_scrolls_exactly_once() {
    let mut buffer = buffer_of(0x0720);
    let mut writer = Writer::new(&mut buffer);
    writer.write_string("above\n");
    let full: Vec<u8> = (0..BUFFER_WIDTH).map(|i| b'a' + (i % 26) as u8).collect();
    writer.write_bytes(&full);
    writer.write_byte(b'!');
    assert_eq!(writer.column(), 1);
    assert!(!writer.wrap_pending());
    assert_eq!(&row_text(&writer, 22)[..5], b"above");
    assert_eq!(row_text(&writer, 23), full);
    let mut last = vec![b' '; BUFFER_WIDTH];
    last[0] = b'!';
    assert_eq!(row_text(&writer, 24), last);
}

#[test]
fn a_newline_after_a_full_row_scrolls_only_once() {
    let mut buffer = buffer_of(0x0720);
    let mut writer = Writer::new(&mut buffer);
    let full = vec![b'x'; BUFFER_WIDTH];
    writer.write_bytes(&full);
    writer.write_byte(b'\n');
    assert_eq!(writer.column(), 0);
    assert!(!writer.wrap_pending());
    assert_eq!(row_text(&writer, 23), full);
    assert_eq!(row_text(&writer, 24), vec![b' '; BUFFER_WIDTH]);
    assert_eq!(row_text(&writer, 22), vec![b' '; BUFFER_WIDTH]);
}

#[test]
fn long_text_wraps_every_eighty_cells() {
    let mut buffer = buffer_of(0x0720);
    let mut writer = Writer::new(&mut buffer);
    let text: Vec<u8> = (0..200).map(|i| b'0' + (i % 10) as u8).collect();
    writer.write_bytes(&text);
    assert_eq!(row_text(&writer, 22), text[..80].to_vec());
    assert_eq!(row_text(&writer, 23), text[80..160].to_vec());
    assert_eq!(&row_text(&writer, 24)[..40], &text[160..]);
    assert_eq!(writer.column(), 40);
}

#[test]
fn set_color_changes_only_what_is_written_next() {
    let mut buffer = buffer_of(0);
    let mut writer = Writer::new(&mut buffer);
    writer.write_byte(b'a');
    writer.set_color(Color::LightGreen, Color::Black);
    writer.write_byte(b'b');
    set_text_color(&mut writer, Color::Black, Color::LightGray);
    writer.write_byte(b'c');
    assert_eq!(writer.char_at(24, 0), Some(cell(b'a', 0x0e)));
    assert_eq!(writer.char_at(24, 1), Some(cell(b'b', 0x0a)));
    assert_eq!(writer.char_at(24, 2), Some(cell(b'c', 0x70)));
    assert_eq!(writer.color_code(), ColorCode(0x70));
    assert_eq!(writer.column(), 3);
}

#[test]
fn clear_screen_blanks_every_row_and_resets_the_cursor() {
    let mut buffer = buffer_of(0x4141);
    let mut writer = Writer::new(&mut buffer);
    writer.write_string("text");
    set_text_color(&mut writer, Color::LightGray, Color::Black);
    clear_screen(&mut writer);
    for row in 0..BUFFER_HEIGHT {
        for col in 0..BUFFER_WIDTH {
            assert_eq!(writer.char_at(row, col), Some(cell(b' ', 0x07)));
        }
    }
    assert_eq!(writer.column(), 0);
    assert!(!writer.wrap_pending());
}

#[test]
fn clear_screen_forgets_a_full_row() {
    let mut buffer = buffer_of(0);
    let mut writer = Writer::new(&mut buffer);
    writer.write_bytes(&vec![b'x'; BUFFER_WIDTH]);
    clear_screen(&mut writer);
    writer.write_byte(b'y');
    assert_eq!(writer.char_at(24, 0), Some(cell(b'y', YELLOW_ON_BLACK)));
    assert_eq!(writer.char_at(23, 0), Some(cell(b' ', YELLOW_ON_BLACK)));
    assert_eq!(writer.column(), 1);
}

#[test]
fn print_message_shows_each_byte_as_its_glyph() {
    let mut buffer = buffer_of(0);
    let mut writer = Writer::new(&mut buffer);
    print_message(&mut writer, "ok\t\u{e9}".as_bytes());
    let shown = row_text(&writer, 24);
    assert_eq!(&shown[..5], &[b'o', b'k', 0xfe, 0xfe, 0xfe]);
    assert_eq!(writer.column(), 5);
}

#[test]
fn print_message_takes_bytes_that_are_not_utf8() {
    let mut buffer = buffer_of(0);
    let mut writer = Writer::new(&mut buffer);
    print_message(&mut writer, &[b'a', 0xff, 0x01, b'\n', 0x80, b'z']);
    assert_eq!(&row_text(&writer, 23)[..4], &[b'a', 0xfe, 0xfe, 0x00]);
    assert_eq!(&row_text(&writer, 24)[..3], &[0xfe, b'z', b' ']);
    assert_eq!(writer.column(), 2);
}

#[test]
fn empty_text_changes_nothing() {
    let mut buffer = buffer_of(0x0742);
    let mut writer = Writer::new(&mut buffer);
    writer.write_string("");
    writer.write_bytes(&[]);
    print_message(&mut writer, &[]);
    assert_eq!(writer.column(), 0);
    assert_eq!(writer.char_at(24, 0), Some(cell(b'B', 0x07)));
}

#[test]
fn the_writer_leaves_its_marks_in_the_buffer() {
    let mut buffer = buffer_of(0);
    {
        let mut writer = Writer::new(&mut buffer);
        writer.write_string("Z");
    }
    assert_eq!(buffer[24][0].read(), 0x0e5a);
    assert_eq!(buffer[24][1].read(), 0);
}
