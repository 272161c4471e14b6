use core::fmt::Write;
use rust_os_sandbox::buffer::Buffer;
use rust_os_sandbox::color::ColorCode;
use rust_os_sandbox::screen::{ScreenChar, BLANK, H, NEWLINE, PLACEHOLDER, W};
use rust_os_sandbox::vga::{Writer, _print};
use spin::Mutex;
use volatile::Volatile;

const WHITE_ON_BLACK: ColorCode = ColorCode(0x0f);

fn filled(ch: u8, attribute: u8) -> &'static mut Buffer {
    Box::leak(Box::new(core::array::from_fn(|_| {
        core::array::from_fn(|_| Volatile::new([ch, attribute]))
    })))
}

fn empty_writer() -> Writer {
    Writer::new(filled(b' ', 0x0f))
}

fn row_text(writer: &Writer, row: usize) -> String {
    (0..W).map(|col| writer.char_at(row, col).ch as char).collect()
}

fn padded(text: &str) -> String {
    format!("{:<80}", text)
}

fn blank() -> ScreenChar {
    ScreenChar { ch: b' ', color: WHITE_ON_BLACK }
}

fn shared_writer() -> Mutex<Writer> {
    Mutex::new(empty_writer())
}

fn print_line(shared: &Mutex<Writer>, text: &str) {
    _print(shared, text);
    _print(shared, "\n");
}

#[test]
fn constants_of_the_display() {
    assert_eq!(NEWLINE, b'\n');
    assert_eq!(BLANK, b' ');
    assert_eq!(PLACEHOLDER, 0xfe);
}

#[test]
fn new_writer_starts_at_column_zero_and_keeps_the_grid() {
    let buf = filled(b'~', 0x3c);
    buf[5][6] = Volatile::new([b'k', 0x21]);
    let writer = Writer::new(buf);
    assert_eq!(writer.column(), 0);
    assert_eq!(writer.char_at(5, 6), ScreenChar { ch: b'k', color: ColorCode(0x21) });
    assert_eq!(writer.char_at(0, 0), ScreenChar { ch: b'~', color: ColorCode(0x3c) });
    assert_eq!(writer.char_at(H - 1, W - 1), ScreenChar { ch: b'~', color: ColorCode(0x3c) });
}

#[test]
fn new_writer_writes_white_on_black() {
    let mut writer = Writer::new(filled(b'~', 0x3c));
    writer.write_byte(b'a');
    assert_eq!(writer.char_at(H - 1, 0), ScreenChar { ch: b'a', color: WHITE_ON_BLACK });
    assert_eq!(writer.char_at(H - 1, 1), ScreenChar { ch: b'~', color: ColorCode(0x3c) });
}

#[test]
fn write_byte_stores_at_cursor_in_bottom_row_and_advances() {
    let mut writer = empty_writer();
    writer.write_byte(b'H');
    assert_eq!(writer.column(), 1);
    writer.write_byte(b'i');
    assert_eq!(writer.column(), 2);
    assert_eq!(writer.char_at(H - 1, 0), ScreenChar { ch: b'H', color: WHITE_ON_BLACK });
    assert_eq!(writer.char_at(H - 1, 1), ScreenChar { ch: b'i', color: WHITE_ON_BLACK });
    assert_eq!(writer.char_at(H - 1, 2), blank());
    assert_eq!(row_text(&writer, H - 2), padded(""));
}

#[test]
fn write_byte_newline_breaks_the_line_and_stores_nothing() {
    let mut writer = empty_writer();
    writer.write_byte(b'x');
    writer.write_byte(b'\n');
    assert_eq!(writer.column(), 0);
    assert_eq!(row_text(&writer, H - 2), padded("x"));
    assert_eq!(row_text(&writer, H - 1), padded(""));
}

#[test]
fn write_byte_stores_any_byte_as_given() {
    let mut writer = empty_writer();
    writer.write_byte(0x01);
    writer.write_byte(0xff);
    writer.write_byte(0xfe);
    writer.write_byte(0x00);
    assert_eq!(writer.char_at(H - 1, 0).ch, 0x01);
    assert_eq!(writer.char_at(H - 1, 1).ch, 0xff);
    assert_eq!(writer.char_at(H - 1, 2).ch, 0xfe);
    assert_eq!(writer.char_at(H - 1, 3).ch, 0x00);
    assert_eq!(writer.column(), 4);
}

#[test]
fn write_byte_on_a_full_row_breaks_the_line_first() {
    let mut writer = empty_writer();
    for _ in 0..W {
        writer.write_byte(b'a');
    }
    assert_eq!(writer.column(), W);
    assert_eq!(row_text(&writer, H - 1), "a".repeat(W));
    assert_eq!(row_text(&writer, H - 2), padded(""));
    writer.write_byte(b'b');
    assert_eq!(writer.column(), 1);
    assert_eq!(row_text(&writer, H - 2), "a".repeat(W));
    assert_eq!(row_text(&writer, H - 1), padded("b"));
}

#[test]
fn newline_on_a_full_row_breaks_the_line_once() {
    let mut writer = empty_writer();
    writer.write_string(&"a".repeat(W));
    writer.write_string("\n");
    assert_eq!(writer.column(), 0);
    assert_eq!(row_text(&writer, H - 2), "a".repeat(W));
    assert_eq!(row_text(&writer, H - 1), padded(""));
    assert_eq!(row_text(&writer, H - 3), padded(""));
}

#[test]
fn write_string_renders_printable_text_in_order() {
    let text = "The quick brown fox, 0123456789 ~!@#$%^&*()_+ {}|[]";
    let mut writer = empty_writer();
    writer.write_string(text);
    assert_eq!(writer.column(), text.len());
    for (i, byte) in text.bytes().enumerate() {
        assert_eq!(writer.char_at(H - 1, i), ScreenChar { ch: byte, color: WHITE_ON_BLACK });
    }
    for col in text.len()..W {
        assert_eq!(writer.char_at(H - 1, col), blank());
    }
}

#[test]
fn write_string_of_a_whole_row_does_not_break_the_line() {
    let text: String = (0..W).map(|i| (b'0' + (i % 10) as u8) as char).collect();
    let mut writer = empty_writer();
    writer.write_string("above\n");
    writer.write_string(&text);
    assert_eq!(writer.column(), W);
    assert_eq!(row_text(&writer, H - 1), text);
    assert_eq!(row_text(&writer, H - 2), padded("above"));
}

#[test]
fn write_string_empty_changes_nothing() {
    let mut writer = empty_writer();
    writer.write_string("ab");
    writer.write_string("");
    assert_eq!(writer.column(), 2);
    assert_eq!(row_text(&writer, H - 1), padded("ab"));
    assert_eq!(row_text(&writer, H - 2), padded(""));
}

#[test]
fn write_string_keeps_the_ends_of_the_printable_range() {
    let mut writer = empty_writer();
    writer.write_string(" ~");
    assert_eq!(writer.char_at(H - 1, 0).ch, 0x20);
    assert_eq!(writer.char_at(H - 1, 1).ch, 0x7e);
}

#[test]
fn write_string_substitutes_the_placeholder() {
    let mut writer = empty_writer();
    writer.write_string("a\u{7f}b\u{1f}c\tD\rE\u{0}");
    let expected = [b'a', 0xfe, b'b', 0xfe, b'c', 0xfe, b'D', 0xfe, b'E', 0xfe];
    for (col, ch) in expected.iter().enumerate() {
        assert_eq!(writer.char_at(H - 1, col), ScreenChar { ch: *ch, color: WHITE_ON_BLACK });
    }
    assert_eq!(writer.column(), expected.len());
}

#[test]
fn write_string_substitutes_every_byte_of_a_multibyte_character() {
    let mut writer = empty_writer();
    writer.write_string("w\u{f6}lfe \u{65e5}!");
    let expected = [b'w', 0xfe, 0xfe, b'l', b'f', b'e', b' ', 0xfe, 0xfe, 0xfe, b'!'];
    for (col, ch) in expected.iter().enumerate() {
        assert_eq!(writer.char_at(H - 1, col).ch, *ch);
    }
    assert_eq!(writer.column(), 11);
    assert_eq!(writer.char_at(H - 1, 11), blank());
}

#[test]
fn write_string_never_stores_an_unrenderable_byte() {
    let text: String = (0u32..0x250).filter_map(char::from_u32).collect();
    let mut writer = empty_writer();
    writer.write_string(&text);
    for row in 0..H {
        for col in 0..W {
            let ch = writer.char_at(row, col).ch;
            assert!((0x20..=0x7e).contains(&ch) || ch == 0xfe);
        }
    }
}

#[test]
fn wrap_after_one_more_than_a_row() {
    let text: String = (0..W + 1).map(|i| (b'A' + (i % 26) as u8) as char).collect();
    let bytes = text.as_bytes();
    let mut writer = empty_writer();
    writer.write_string("top\n");
    writer.write_string(&text);
    assert_eq!(writer.column(), 1);
    assert_eq!(writer.char_at(H - 1, 0).ch, bytes[W]);
    assert_eq!(writer.char_at(H - 2, W - 1).ch, bytes[W - 1]);
    assert_eq!(row_text(&writer, H - 2), &text[..W]);
    assert_eq!(row_text(&writer, H - 1), padded(&text[W..]));
    assert_eq!(row_text(&writer, H - 3), padded("top"));
    assert_eq!(row_text(&writer, H - 4), padded(""));
}

#[test]
fn scroll_moves_every_row_up_and_blanks_the_bottom() {
    let buf = filled(b' ', 0x0f);
    for row in 0..H {
        for col in 0..W {
            buf[row][col] = Volatile::new([b'a' + row as u8, 0x10 + row as u8]);
        }
    }
    let mut writer = Writer::new(buf);
    writer.write_byte(b'\n');
    for row in 0..H - 1 {
        for col in 0..W {
            assert_eq!(
                writer.char_at(row, col),
                ScreenChar { ch: b'a' + row as u8 + 1, color: ColorCode(0x10 + row as u8 + 1) }
            );
        }
    }
    for col in 0..W {
        assert_eq!(writer.char_at(H - 1, col), blank());
    }
    assert_eq!(writer.column(), 0);
}

#[test]
fn scroll_drops_the_top_row() {
    let mut first = Writer::new(filled(b'.', 0x07));
    let other = filled(b'.', 0x07);
    for col in 0..W {
        other[0][col] = Volatile::new([b'T', 0x4e]);
    }
    let mut second = Writer::new(other);
    first.write_string("\n");
    second.write_string("\n");
    for row in 0..H {
        for col in 0..W {
            assert_eq!(first.char_at(row, col), second.char_at(row, col));
            assert_ne!(second.char_at(row, col).ch, b'T');
        }
    }
}

#[test]
fn as_many_line_breaks_as_rows_clear_the_grid() {
    let mut writer = Writer::new(filled(b'#', 0x5d));
    for _ in 0..H {
        writer.write_byte(b'\n');
    }
    for row in 0..H {
        assert_eq!(row_text(&writer, row), padded(""));
        for col in 0..W {
            assert_eq!(writer.char_at(row, col).color, WHITE_ON_BLACK);
        }
    }
}

#[test]
fn lines_stack_from_the_bottom_up() {
    let mut writer = empty_writer();
    writer.write_string("one\ntwo\nthree\nfour");
    assert_eq!(row_text(&writer, H - 4), padded("one"));
    assert_eq!(row_text(&writer, H - 3), padded("two"));
    assert_eq!(row_text(&writer, H - 2), padded("three"));
    assert_eq!(row_text(&writer, H - 1), padded("four"));
    assert_eq!(row_text(&writer, H - 5), padded(""));
    assert_eq!(writer.column(), 4);
}

#[test]
fn same_string_twice_gets_the_same_attributes() {
    let text = "attribute";
    let mut writer = Writer::new(filled(b'?', 0x6b));
    writer.write_string(text);
    writer.write_string(text);
    for i in 0..text.len() {
        let first = writer.char_at(H - 1, i);
        let second = writer.char_at(H - 1, text.len() + i);
        assert_eq!(first.color, second.color);
        assert_eq!(first.color, WHITE_ON_BLACK);
        assert_eq!(first, second);
    }
    assert_eq!(writer.char_at(H - 1, 2 * text.len()).color, ColorCode(0x6b));
}

#[test]
fn string_in_two_pieces_is_the_string_in_one() {
    let mut whole = empty_writer();
    let mut pieces = empty_writer();
    whole.write_string("first line\nsecond \u{e9} line");
    pieces.write_string("first line\nsec");
    pieces.write_string("ond \u{e9} line");
    assert_eq!(whole.column(), pieces.column());
    for row in 0..H {
        for col in 0..W {
            assert_eq!(whole.char_at(row, col), pieces.char_at(row, col));
        }
    }
}

#[test]
fn cursor_stays_within_the_row_whatever_is_written() {
    let mut writer = empty_writer();
    let mut state: u32 = 12345;
    for _ in 0..5000 {
        state = state.wrapping_mul(1103515245).wrapping_add(12345);
        let byte = (state >> 16) as u8;
        let before = writer.column();
        writer.write_byte(byte);
        let after = writer.column();
        assert!(after <= W);
        if byte == b'\n' {
            assert_eq!(after, 0);
        } else {
            let stored_at = if before == W { 0 } else { before };
            assert!(stored_at < W);
            assert_eq!(after, stored_at + 1);
            assert_eq!(writer.char_at(H - 1, stored_at), ScreenChar { ch: byte, color: WHITE_ON_BLACK });
        }
    }
}

#[test]
fn rows_above_the_bottom_change_by_a_line_break_only() {
    let buf = filled(b' ', 0x0f);
    for row in 0..H {
        for col in 0..W {
            buf[row][col] = Volatile::new([b'A' + row as u8, 0x20 + row as u8]);
        }
    }
    let mut writer = Writer::new(buf);
    writer.write_string("within the row");
    for row in 0..H - 1 {
        for col in 0..W {
            assert_eq!(
                writer.char_at(row, col),
                ScreenChar { ch: b'A' + row as u8, color: ColorCode(0x20 + row as u8) }
            );
        }
    }
    writer.write_string("\nx");
    for row in 0..H - 2 {
        for col in 0..W {
            assert_eq!(
                writer.char_at(row, col),
                ScreenChar { ch: b'A' + row as u8 + 1, color: ColorCode(0x20 + row as u8 + 1) }
            );
        }
    }
    assert_eq!(&row_text(&writer, H - 2)[..14], "within the row");
    assert_eq!(writer.char_at(H - 2, 14).ch, b'A' + (H - 1) as u8);
}

#[test]
fn end_to_end_newline_scenario() {
    let mut writer = empty_writer();
    writer.write_string("AB\nC");
    assert_eq!(writer.char_at(H - 1, 0).ch, b'C');
    assert_eq!(writer.char_at(H - 2, 0).ch, b'A');
    assert_eq!(writer.char_at(H - 2, 1).ch, b'B');
    assert_eq!(row_text(&writer, H - 1), padded("C"));
    assert_eq!(row_text(&writer, H - 2), padded("AB"));
    assert_eq!(row_text(&writer, H - 3), padded(""));
    assert_eq!(writer.column(), 1);
}

#[test]
fn print_writes_as_write_string_does() {
    let shared = shared_writer();
    let mut written = empty_writer();
    _print(&shared, "Hello World!\n\u{80}");
    written.write_string("Hello World!\n\u{80}");
    let printed = shared.lock();
    assert_eq!(printed.column(), 2);
    assert_eq!(row_text(&printed, H - 2), padded("Hello World!"));
    assert_eq!(printed.char_at(H - 1, 0).ch, 0xfe);
    assert_eq!(printed.char_at(H - 1, 1).ch, 0xfe);
    for row in 0..H {
        for col in 0..W {
            assert_eq!(printed.char_at(row, col), written.char_at(row, col));
        }
    }
}

#[test]
fn print_gives_the_lock_back() {
    let shared = shared_writer();
    _print(&shared, "a");
    assert!(shared.try_lock().is_some());
    _print(&shared, "b");
    let writer = shared.lock();
    assert_eq!(row_text(&writer, H - 1), padded("ab"));
    assert_eq!(writer.column(), 2);
}

#[test]
fn print_goes_on_where_the_writer_stood() {
    let mut writer = empty_writer();
    writer.write_string("left\nri");
    let shared = Mutex::new(writer);
    _print(&shared, "ght");
    let writer = shared.lock();
    assert_eq!(row_text(&writer, H - 2), padded("left"));
    assert_eq!(row_text(&writer, H - 1), padded("right"));
}

#[test]
fn write_str_of_the_formatting_sink_writes_and_succeeds() {
    let mut writer = empty_writer();
    assert!(writer.write_str("sum: ").is_ok());
    assert!(writer.write_str(&format!("{}+{}={}", 1, 2, 1 + 2)).is_ok());
    assert!(writer.write_char('\n').is_ok());
    assert_eq!(row_text(&writer, H - 2), padded("sum: 1+2=3"));
    assert_eq!(writer.column(), 0);
}

#[test]
fn test_println_simple() {
    let shared = shared_writer();
    print_line(&shared, "test_println_simple output");
    assert_eq!(row_text(&shared.lock(), H - 2), padded("test_println_simple output"));
}

#[test]
fn test_println_many() {
    let shared = shared_writer();
    for _ in 0..200 {
        print_line(&shared, "test_println_many output");
    }
    let writer = shared.lock();
    for row in 0..H - 1 {
        assert_eq!(row_text(&writer, row), padded("test_println_many output"));
    }
    assert_eq!(row_text(&writer, H - 1), padded(""));
}

#[test]
fn test_println_output() {
    let s = "Some test string that fits on a single line";
    let shared = shared_writer();
    print_line(&shared, s);
    for (i, c) in s.chars().enumerate() {
        let screen_char = shared.lock().char_at(H - 2, i);
        assert_eq!(char::from(screen_char.ch), c);
    }
}

#[test]
fn test_println() {
    let shared = shared_writer();
    print_line(&shared, "test_println output");
    assert_eq!(row_text(&shared.lock(), H - 2), padded("test_println output"));
    assert_eq!(1, 1);
}
