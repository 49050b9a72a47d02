use pamplemouche::keyboard::{Key, KeyDecoder};
use pc_keyboard::KeyCode;

#[test]
fn keyboard_decodes_letters_and_shift() {
    let mut d = KeyDecoder::new();
    // 'A' key pressed, then released.
    assert!(matches!(d.feed(0x1E), Some(Key::Unicode('a'))));
    assert!(d.feed(0x9E).is_none());
    // Left shift held: the same key gives the capital.
    assert!(matches!(d.feed(0x2A), Some(Key::Raw(KeyCode::LShift))));
    assert!(matches!(d.feed(0x1E), Some(Key::Unicode('A'))));
    assert!(d.feed(0x9E).is_none());
    assert!(d.feed(0xAA).is_none());
    assert!(matches!(d.feed(0x1E), Some(Key::Unicode('a'))));
}

#[test]
fn keyboard_extended_prefix_waits_for_next_byte() {
    let mut d = KeyDecoder::new();
    // 0xE0 starts an extended sequence: no key until it completes.
    assert!(d.feed(0xE0).is_none());
    assert!(matches!(d.feed(0x48), Some(Key::Raw(KeyCode::ArrowUp))));
}

#[test]
fn keyboard_break_codes_give_no_key() {
    let mut d = KeyDecoder::new();
    for code in 0x80u8..=0xFF {
        assert!(d.feed(code).is_none());
    }
    // The decoder is still in step: a make code gives its key.
    assert!(matches!(d.feed(0x1E), Some(Key::Unicode('a'))));
}
