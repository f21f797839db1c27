use vga_buffer::buffer::{Buffer, BUFFER_HEIGHT, BUFFER_WIDTH};
use vga_buffer::cell::ScreenChar;
use vga_buffer::color::ColorCode;
use volatile::Volatile;

fn region_of(word: u16) -> &'static mut [[Volatile<u16>; BUFFER_WIDTH]; BUFFER_HEIGHT] {
    let region: [[Volatile<u16>; BUFFER_WIDTH]; BUFFER_HEIGHT] =
        core::array::from_fn(|_| core::array::from_fn(|_| Volatile::new(word)));
    Box::leak(Box::new(region))
}

#[test]
fn screen_is_80_by_25() {
    assert_eq!(BUFFER_WIDTH, 80);
    assert_eq!(BUFFER_HEIGHT, 25);
}

#[test]
fn buffer_shows_what_the_region_holds() {
    let region = region_of(0x0720);
    region[3][5] = Volatile::new(0x1f41);
    let buffer = Buffer::new(region);
    assert_eq!(buffer.read(3, 5), ScreenChar { ascii_char: b'A', color_code: ColorCode(0x1f) });
    assert_eq!(buffer.read(0, 0), ScreenChar { ascii_char: b' ', color_code: ColorCode(0x07) });
    assert_eq!(buffer.read(24, 79), ScreenChar { ascii_char: b' ', color_code: ColorCode(0x07) });
}

#[test]
fn buffer_write_then_read_returns_the_cell() {
    let mut buffer = Buffer::new(region_of(0));
    let cell = ScreenChar { ascii_char: b'x', color_code: ColorCode(0x4e) };
    for row in 0..BUFFER_HEIGHT {
        for col in 0..BUFFER_WIDTH {
            buffer.write(row, col, cell);
            assert_eq!(buffer.read(row, col), cell);
        }
    }
}

#[test]
fn buffer_write_changes_one_cell_only() {
    let mut buffer = Buffer::new(region_of(0x0720));
    let blank = ScreenChar { ascii_char: b' ', color_code: ColorCode(0x07) };
    let cell = ScreenChar { ascii_char: b'#', color_code: ColorCode(0x0e) };
    buffer.write(12, 40, cell);
    for row in 0..BUFFER_HEIGHT {
        for col in 0..BUFFER_WIDTH {
            let expected = if row == 12 && col == 40 { cell } else { blank };
            assert_eq!(buffer.read(row, col), expected);
        }
    }
}

#[test]
fn buffer_write_overwrites_the_corners() {
    let mut buffer = Buffer::new(region_of(0xffff));
    let cell = ScreenChar { ascii_char: b'c', color_code: ColorCode(0x01) };
    for (row, col) in [(0, 0), (0, 79), (24, 0), (24, 79)] {
        assert_eq!(buffer.read(row, col), ScreenChar { ascii_char: 0xff, color_code: ColorCode(0xff) });
        buffer.write(row, col, cell);
        assert_eq!(buffer.read(row, col), cell);
    }
}
