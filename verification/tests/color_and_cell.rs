use vga_buffer::cell::{ScreenChar, BLANK};
use vga_buffer::color::{Color, ColorCode};
use vga_buffer::screen::{is_printable, sanitize, NEWLINE, PLACEHOLDER};

fn palette() -> [Color; 16] {
    [
        Color::Black,
        Color::Blue,
        Color::Green,
        Color::Cyan,
        Color::Red,
        Color::Magenta,
        Color::Brown,
        Color::LightGray,
        Color::DarkGray,
        Color::LightBlue,
        Color::LightGreen,
        Color::LightCyan,
        Color::LightRed,
        Color::Pink,
        Color::Yellow,
        Color::White,
    ]
}

#[test]
fn color_codes_follow_palette_order() {
    for (index, color) in palette().iter().enumerate() {
        assert_eq!(color.code() as usize, index);
    }
}

#[test]
fn yellow_on_black_is_0x0e() {
    assert_eq!(ColorCode::new(Color::Yellow, Color::Black), ColorCode(0x0e));
}

#[test]
fn white_on_blue_is_0x1f() {
    assert_eq!(ColorCode::new(Color::White, Color::Blue).0, 0x1f);
}

#[test]
fn black_on_white_is_0xf0() {
    assert_eq!(ColorCode::new(Color::Black, Color::White).0, 0xf0);
}

#[test]
fn color_code_packs_every_pair() {
    for foreground in palette() {
        for background in palette() {
            let code = ColorCode::new(foreground, background);
            assert_eq!(code.0, background.code() * 16 + foreground.code());
            assert_eq!(code.0 & 0x0f, foreground.code());
            assert_eq!(code.0 >> 4, background.code());
        }
    }
}

#[test]
fn blank_cell_is_a_space_in_the_colour() {
    let code = ColorCode(0x0e);
    assert_eq!(BLANK, b' ');
    assert_eq!(ScreenChar::blank(code), ScreenChar { ascii_char: 0x20, color_code: code });
}

#[test]
fn cell_word_has_character_low_and_attribute_high() {
    let cell = ScreenChar { ascii_char: b'H', color_code: ColorCode(0x0e) };
    assert_eq!(cell.word(), 0x0e48);
    assert_eq!(cell.word().to_le_bytes(), [b'H', 0x0e]);
}

#[test]
fn cell_from_word_reads_both_bytes() {
    assert_eq!(
        ScreenChar::from_word(0x1f41),
        ScreenChar { ascii_char: b'A', color_code: ColorCode(0x1f) }
    );
}

#[test]
fn cell_word_round_trips_for_every_word() {
    for word in 0..=u16::MAX {
        assert_eq!(ScreenChar::from_word(word).word(), word);
    }
}

#[test]
fn cell_round_trips_through_word() {
    for ascii_char in 0..=u8::MAX {
        for bits in [0x00u8, 0x0e, 0x7f, 0x80, 0xff] {
            let cell = ScreenChar { ascii_char, color_code: ColorCode(bits) };
            assert_eq!(ScreenChar::from_word(cell.word()), cell);
        }
    }
}

#[test]
fn printable_range_is_space_to_tilde() {
    assert!(!is_printable(0x1f));
    assert!(is_printable(0x20));
    assert!(is_printable(b'a'));
    assert!(is_printable(0x7e));
    assert!(!is_printable(0x7f));
    assert!(!is_printable(NEWLINE));
    assert!(!is_printable(PLACEHOLDER));
}

#[test]
fn sanitize_keeps_printable_and_newline() {
    for byte in 0x20..=0x7eu8 {
        assert_eq!(sanitize(byte), byte);
    }
    assert_eq!(NEWLINE, b'\n');
    assert_eq!(sanitize(b'\n'), b'\n');
}

#[test]
fn sanitize_replaces_everything_else() {
    assert_eq!(PLACEHOLDER, 0xfe);
    for byte in 0..=u8::MAX {
        if !(0x20..=0x7e).contains(&byte) && byte != b'\n' {
            assert_eq!(sanitize(byte), 0xfe);
        }
    }
}
