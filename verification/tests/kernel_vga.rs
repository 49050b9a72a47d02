use pamplemouche::vga::{Color, ColorCode, ScreenChar, Writer, BUFFER_CELLS, BUFFER_HEIGHT, BUFFER_WIDTH};

fn blank_screen() -> Vec<ScreenChar> {
    vec![ScreenChar { ascii: b'.', color: ColorCode(0x07) }; BUFFER_CELLS]
}

fn bottom_row(w: &Writer) -> Vec<u8> {
    (0..BUFFER_WIDTH).map(|c| w.screen_char(BUFFER_HEIGHT - 1, c).ascii).collect()
}

#[test]
fn color_code_packs_nibbles() {
    assert_eq!(ColorCode::new(Color::LightGreen, Color::Black), ColorCode(0x0a));
    assert_eq!(ColorCode::new(Color::White, Color::Blue), ColorCode(0x1f));
    assert_eq!(ColorCode::new(Color::Black, Color::White), ColorCode(0xf0));
    assert_eq!(Color::Yellow.number(), 14);
}

#[test]
fn write_byte_goes_on_bottom_row() {
    let mut w = Writer::new(Color::LightGreen, Color::Black, blank_screen());
    w.write_byte(b'A');
    w.write_byte(b'B');
    let c = w.screen_char(BUFFER_HEIGHT - 1, 0);
    assert_eq!(c.ascii, b'A');
    assert_eq!(c.color, ColorCode(0x0a));
    assert_eq!(w.screen_char(BUFFER_HEIGHT - 1, 1).ascii, b'B');
    assert_eq!(w.screen_char(BUFFER_HEIGHT - 1, 2).ascii, b'.');
    assert_eq!(w.screen_char(0, 0).ascii, b'.');
}

#[test]
fn newline_scrolls_and_clears() {
    let mut w = Writer::new(Color::LightGreen, Color::Black, blank_screen());
    w.write_string("hi\n");
    assert_eq!(w.screen_char(BUFFER_HEIGHT - 2, 0).ascii, b'h');
    assert_eq!(w.screen_char(BUFFER_HEIGHT - 2, 1).ascii, b'i');
    assert_eq!(w.screen_char(BUFFER_HEIGHT - 2, 2).ascii, b'.');
    let blank = w.screen_char(BUFFER_HEIGHT - 1, 5);
    assert_eq!(blank.ascii, b' ');
    assert_eq!(blank.color, ColorCode(0x0a));
    w.write_byte(b'x');
    assert_eq!(w.screen_char(BUFFER_HEIGHT - 1, 0).ascii, b'x');
}

#[test]
fn full_row_wraps() {
    let mut w = Writer::new(Color::White, Color::Black, blank_screen());
    let line: String = std::iter::repeat('z').take(BUFFER_WIDTH).collect();
    w.write_string(&line);
    assert!(bottom_row(&w).iter().all(|&b| b == b'z'));
    w.write_byte(b'q');
    assert_eq!(w.screen_char(BUFFER_HEIGHT - 2, BUFFER_WIDTH - 1).ascii, b'z');
    assert_eq!(w.screen_char(BUFFER_HEIGHT - 1, 0).ascii, b'q');
    assert_eq!(w.screen_char(BUFFER_HEIGHT - 1, 1).ascii, b' ');
}

#[test]
fn non_printable_shown_as_block() {
    let mut w = Writer::new(Color::White, Color::Black, blank_screen());
    w.write_string("a\té");
    let row = bottom_row(&w);
    // 'é' is two UTF-8 bytes, each shown as 0xfe.
    assert_eq!(&row[..4], &[b'a', 0xfe, 0xfe, 0xfe]);
    assert_eq!(row[4], b'.');
}

#[test]
fn writing_in_pieces_equals_writing_at_once() {
    let mut a = Writer::new(Color::Cyan, Color::Black, blank_screen());
    let mut b = Writer::new(Color::Cyan, Color::Black, blank_screen());
    a.write_string("Pamplemouche\nDarwin compat");
    b.write_string("Pample");
    b.write_string("mouche\nDar");
    b.write_string("win compat");
    for r in 0..BUFFER_HEIGHT {
        for c in 0..BUFFER_WIDTH {
            assert_eq!(a.screen_char(r, c), b.screen_char(r, c));
        }
    }
}
