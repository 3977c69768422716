use atelier::keys::{key_event_to_bytes, KeyCode, KeyEvent, ALT, CONTROL, SHIFT};

fn key(code: KeyCode, modifiers: u8) -> KeyEvent {
    KeyEvent { code, modifiers }
}

#[test]
fn control_letter_is_its_control_code() {
    let k = KeyEvent { code: KeyCode::Char('c'), modifiers: CONTROL };
    assert_eq!(key_event_to_bytes(k), vec![3u8]);
}

#[test]
fn control_a_and_z_are_one_and_twenty_six() {
    assert_eq!(key_event_to_bytes(key(KeyCode::Char('a'), CONTROL)), vec![1u8]);
    assert_eq!(key_event_to_bytes(key(KeyCode::Char('z'), CONTROL)), vec![26u8]);
}

#[test]
fn control_with_a_non_letter_sends_the_character() {
    assert_eq!(key_event_to_bytes(key(KeyCode::Char('A'), CONTROL)), vec![b'A']);
    assert_eq!(key_event_to_bytes(key(KeyCode::Char('5'), CONTROL)), vec![b'5']);
}

#[test]
fn alt_prefixes_escape() {
    assert_eq!(key_event_to_bytes(key(KeyCode::Char('x'), ALT)), vec![0x1b, b'x']);
}

#[test]
fn plain_and_shifted_characters_are_themselves() {
    assert_eq!(key_event_to_bytes(key(KeyCode::Char('q'), 0)), vec![b'q']);
    assert_eq!(key_event_to_bytes(key(KeyCode::Char('Q'), SHIFT)), vec![b'Q']);
}

#[test]
fn special_keys_have_their_sequences() {
    assert_eq!(key_event_to_bytes(key(KeyCode::Enter, 0)), vec![13u8]);
    assert_eq!(key_event_to_bytes(key(KeyCode::Backspace, 0)), vec![0x7fu8]);
    assert_eq!(key_event_to_bytes(key(KeyCode::Tab, 0)), vec![9u8]);
    assert_eq!(key_event_to_bytes(key(KeyCode::Esc, 0)), vec![0x1bu8]);
    assert_eq!(key_event_to_bytes(key(KeyCode::Left, 0)), b"\x1b[D".to_vec());
    assert_eq!(key_event_to_bytes(key(KeyCode::Right, 0)), b"\x1b[C".to_vec());
    assert_eq!(key_event_to_bytes(key(KeyCode::Up, 0)), b"\x1b[A".to_vec());
    assert_eq!(key_event_to_bytes(key(KeyCode::Down, 0)), b"\x1b[B".to_vec());
    assert_eq!(key_event_to_bytes(key(KeyCode::Home, 0)), b"\x1b[H".to_vec());
    assert_eq!(key_event_to_bytes(key(KeyCode::End, 0)), b"\x1b[F".to_vec());
    assert_eq!(key_event_to_bytes(key(KeyCode::Delete, 0)), b"\x1b[3~".to_vec());
    assert_eq!(key_event_to_bytes(key(KeyCode::PageUp, 0)), b"\x1b[5~".to_vec());
    assert_eq!(key_event_to_bytes(key(KeyCode::PageDown, 0)), b"\x1b[6~".to_vec());
}

#[test]
fn unmapped_keys_send_nothing() {
    assert!(key_event_to_bytes(key(KeyCode::Other, 0)).is_empty());
    assert!(key_event_to_bytes(key(KeyCode::BackTab, 0)).is_empty());
}

#[test]
fn a_character_is_sent_as_utf8() {
    assert_eq!(key_event_to_bytes(key(KeyCode::Char('\u{e9}'), 0)), vec![0xc3u8, 0xa9]);
    assert_eq!(key_event_to_bytes(key(KeyCode::Char('\u{e9}'), SHIFT)), "\u{e9}".as_bytes().to_vec());
    assert_eq!(key_event_to_bytes(key(KeyCode::Char('\u{20ac}'), 0)), "\u{20ac}".as_bytes().to_vec());
    assert_eq!(key_event_to_bytes(key(KeyCode::Char('\u{e9}'), ALT)), vec![0x1b, 0xc3, 0xa9]);
}
