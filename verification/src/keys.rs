//! Key presses and the bytes a terminal program expects for them.

use vstd::prelude::*;
use crate::app::push_text_bytes;
use crate::text::push_char;

verus! {

/// A key, as the terminal reports it.
#[derive(Debug, Clone, Copy, PartialEq, Eq, Structural)]
pub enum KeyCode {
    Char(char),
    Enter,
    Backspace,
    Tab,
    BackTab,
    Esc,
    Left,
    Right,
    Up,
    Down,
    Home,
    End,
    Delete,
    PageUp,
    PageDown,
    /// Any key the workspace gives no meaning to.
    Other,
}

/// Modifier bit for Shift.
pub const SHIFT: u8 = 1;

/// Modifier bit for Control.
pub const CONTROL: u8 = 2;

/// Modifier bit for Alt.
pub const ALT: u8 = 4;

/// Control and Shift held together.
pub const CONTROL_SHIFT: u8 = 3;

/// A key press: the key and the set of held modifiers (a bit set).
#[derive(Debug, Clone, Copy, PartialEq, Eq, Structural)]
pub struct KeyEvent {
    pub code: KeyCode,
    pub modifiers: u8,
}

/// The low byte of a character's scalar value (what `c as u8` gives).
pub open spec fn low_byte(c: char) -> u8 {
    ((c as int) % 256) as u8
}

/// The bytes sent to a terminal program for a key press: a character goes
/// as its UTF-8 encoding (after Esc with Alt); with Control a letter goes as
/// its control code.
pub open spec fn key_bytes(key: KeyEvent) -> Seq<u8> {
    match key.code {
        KeyCode::Enter => seq![13u8],
        KeyCode::Backspace => seq![0x7fu8],
        KeyCode::Tab => seq![9u8],
        KeyCode::Esc => seq![0x1bu8],
        KeyCode::Char(c) => if key.modifiers == CONTROL {
            if 'a' <= c <= 'z' {
                seq![(c as int - 'a' as int + 1) as u8]
            } else {
                seq![low_byte(c)]
            }
        } else if key.modifiers == ALT {
            seq![0x1bu8] + vstd::utf8::encode_utf8(seq![c])
        } else {
            vstd::utf8::encode_utf8(seq![c])
        },
        KeyCode::Left => seq![0x1bu8, 0x5bu8, 0x44u8],
        KeyCode::Right => seq![0x1bu8, 0x5bu8, 0x43u8],
        KeyCode::Up => seq![0x1bu8, 0x5bu8, 0x41u8],
        KeyCode::Down => seq![0x1bu8, 0x5bu8, 0x42u8],
        KeyCode::Home => seq![0x1bu8, 0x5bu8, 0x48u8],
        KeyCode::End => seq![0x1bu8, 0x5bu8, 0x46u8],
        KeyCode::Delete => seq![0x1bu8, 0x5bu8, 0x33u8, 0x7eu8],
        KeyCode::PageUp => seq![0x1bu8, 0x5bu8, 0x35u8, 0x7eu8],
        KeyCode::PageDown => seq![0x1bu8, 0x5bu8, 0x36u8, 0x7eu8],
        _ => Seq::empty(),
    }
}

fn char_low_byte(c: char) -> (b: u8)
    ensures
        b == low_byte(c),
{
    ((c as u32) % 256) as u8
}

/// Appends the UTF-8 encoding of `c`.
fn push_char_bytes(v: &mut Vec<u8>, c: char)
    ensures
        final(v)@ == old(v)@ + vstd::utf8::encode_utf8(seq![c]),
{
    let mut s = String::new();
    push_char(&mut s, c);
    assert(s@ =~= seq![c]);
    push_text_bytes(v, s.as_str());
}

/// The bytes a key press stands for, as written to a pane's program.
pub fn key_event_to_bytes(key: KeyEvent) -> (bytes: Vec<u8>)
    ensures
        bytes@ == key_bytes(key),
{
    match key.code {
        KeyCode::Enter => vec![13u8],
        KeyCode::Backspace => vec![0x7fu8],
        KeyCode::Tab => vec![9u8],
        KeyCode::Esc => vec![0x1bu8],
        KeyCode::Char(c) => {
            if key.modifiers == CONTROL {
                if 'a' <= c && c <= 'z' {
                    vec![((c as u32) - 96) as u8]
                } else {
                    vec![char_low_byte(c)]
                }
            } else if key.modifiers == ALT {
                let mut v = vec![0x1bu8];
                push_char_bytes(&mut v, c);
                v
            } else {
                let mut v: Vec<u8> = Vec::new();
                push_char_bytes(&mut v, c);
                v
            }
        },
        KeyCode::Left => vec![0x1bu8, 0x5bu8, 0x44u8],
        KeyCode::Right => vec![0x1bu8, 0x5bu8, 0x43u8],
        KeyCode::Up => vec![0x1bu8, 0x5bu8, 0x41u8],
        KeyCode::Down => vec![0x1bu8, 0x5bu8, 0x42u8],
        KeyCode::Home => vec![0x1bu8, 0x5bu8, 0x48u8],
        KeyCode::End => vec![0x1bu8, 0x5bu8, 0x46u8],
        KeyCode::Delete => vec![0x1bu8, 0x5bu8, 0x33u8, 0x7eu8],
        KeyCode::PageUp => vec![0x1bu8, 0x5bu8, 0x35u8, 0x7eu8],
        KeyCode::PageDown => vec![0x1bu8, 0x5bu8, 0x36u8, 0x7eu8],
        _ => Vec::new(),
    }
}

} // verus!
