//! Translation of frontend-native key codes (libretro keyboard codes,
//! RetroPad buttons and minifb window keys) into physical host keys.

use vstd::prelude::*;
use crate::keyboard::{HostKey, host_key_id, key_id_for_host_key};
use crate::machine::{MachineModel, char_from_ascii};

verus! {

pub const RETROK_BACKSPACE: u32 = 8;
pub const RETROK_RETURN: u32 = 13;
pub const RETROK_ESCAPE: u32 = 27;
pub const RETROK_SPACE: u32 = 32;
pub const RETROK_COMMA: u32 = 44;
pub const RETROK_PERIOD: u32 = 46;
pub const RETROK_SLASH: u32 = 47;
pub const RETROK_0: u32 = 48;
pub const RETROK_9: u32 = 57;
pub const RETROK_EQUALS: u32 = 61;
pub const RETROK_LEFTBRACKET: u32 = 91;
pub const RETROK_BACKSLASH: u32 = 92;
pub const RETROK_RIGHTBRACKET: u32 = 93;
pub const RETROK_A: u32 = 97;
pub const RETROK_Z: u32 = 122;
pub const RETROK_DELETE: u32 = 127;
pub const RETROK_F1: u32 = 282;
pub const RETROK_F12: u32 = 293;
pub const RETROK_LEFT: u32 = 0x250;
pub const RETROK_UP: u32 = 0x251;
pub const RETROK_RIGHT: u32 = 0x252;
pub const RETROK_DOWN: u32 = 0x253;
pub const RETROK_PAGEUP: u32 = 0x254;
pub const RETROK_PAGEDOWN: u32 = 0x255;

pub const RETRO_DEVICE_ID_JOYPAD_B: u32 = 0;
pub const RETRO_DEVICE_ID_JOYPAD_Y: u32 = 1;
pub const RETRO_DEVICE_ID_JOYPAD_SELECT: u32 = 2;
pub const RETRO_DEVICE_ID_JOYPAD_START: u32 = 3;
pub const RETRO_DEVICE_ID_JOYPAD_UP: u32 = 4;
pub const RETRO_DEVICE_ID_JOYPAD_DOWN: u32 = 5;
pub const RETRO_DEVICE_ID_JOYPAD_LEFT: u32 = 6;
pub const RETRO_DEVICE_ID_JOYPAD_RIGHT: u32 = 7;
pub const RETRO_DEVICE_ID_JOYPAD_A: u32 = 8;
pub const RETRO_DEVICE_ID_JOYPAD_X: u32 = 9;
pub const RETRO_DEVICE_ID_JOYPAD_L: u32 = 10;
pub const RETRO_DEVICE_ID_JOYPAD_R: u32 = 11;

/// The host key of a libretro keyboard code.
pub open spec fn retro_key(keycode: u32) -> Option<HostKey> {
    if keycode == RETROK_RETURN {
        Some(HostKey::Return)
    } else if keycode == RETROK_ESCAPE {
        Some(HostKey::Escape)
    } else if keycode == RETROK_SPACE {
        Some(HostKey::Space)
    } else if keycode == RETROK_BACKSPACE {
        Some(HostKey::Backspace)
    } else if keycode == RETROK_DELETE {
        Some(HostKey::Delete)
    } else if keycode == RETROK_UP {
        Some(HostKey::Up)
    } else if keycode == RETROK_DOWN {
        Some(HostKey::Down)
    } else if keycode == RETROK_LEFT {
        Some(HostKey::Left)
    } else if keycode == RETROK_RIGHT {
        Some(HostKey::Right)
    } else if keycode == RETROK_PAGEUP {
        Some(HostKey::PageUp)
    } else if keycode == RETROK_PAGEDOWN {
        Some(HostKey::PageDown)
    } else if keycode == RETROK_PERIOD {
        Some(HostKey::Period)
    } else if keycode == RETROK_COMMA {
        Some(HostKey::Comma)
    } else if keycode == RETROK_SLASH {
        Some(HostKey::Slash)
    } else if keycode == RETROK_LEFTBRACKET {
        Some(HostKey::LeftBracket)
    } else if keycode == RETROK_RIGHTBRACKET {
        Some(HostKey::RightBracket)
    } else if keycode == RETROK_BACKSLASH {
        Some(HostKey::Backslash)
    } else if keycode == RETROK_EQUALS {
        Some(HostKey::Equals)
    } else if RETROK_F1 <= keycode && keycode <= RETROK_F12 {
        Some(HostKey::Function((keycode - RETROK_F1 + 1) as u8))
    } else if RETROK_A <= keycode && keycode <= RETROK_Z {
        // Lower-case letter codes stand for the upper-case letter.
        Some(HostKey::Letter((keycode - 32) as char))
    } else if RETROK_0 <= keycode && keycode <= RETROK_9 {
        Some(HostKey::Digit((keycode - RETROK_0) as u8))
    } else {
        None
    }
}

/// Translate a libretro keyboard code into a physical key.
pub fn retro_host_key(keycode: u32) -> (r: Option<HostKey>)
    ensures
        r == retro_key(keycode),
{
    if keycode == RETROK_RETURN {
        Some(HostKey::Return)
    } else if keycode == RETROK_ESCAPE {
        Some(HostKey::Escape)
    } else if keycode == RETROK_SPACE {
        Some(HostKey::Space)
    } else if keycode == RETROK_BACKSPACE {
        Some(HostKey::Backspace)
    } else if keycode == RETROK_DELETE {
        Some(HostKey::Delete)
    } else if keycode == RETROK_UP {
        Some(HostKey::Up)
    } else if keycode == RETROK_DOWN {
        Some(HostKey::Down)
    } else if keycode == RETROK_LEFT {
        Some(HostKey::Left)
    } else if keycode == RETROK_RIGHT {
        Some(HostKey::Right)
    } else if keycode == RETROK_PAGEUP {
        Some(HostKey::PageUp)
    } else if keycode == RETROK_PAGEDOWN {
        Some(HostKey::PageDown)
    } else if keycode == RETROK_PERIOD {
        Some(HostKey::Period)
    } else if keycode == RETROK_COMMA {
        Some(HostKey::Comma)
    } else if keycode == RETROK_SLASH {
        Some(HostKey::Slash)
    } else if keycode == RETROK_LEFTBRACKET {
        Some(HostKey::LeftBracket)
    } else if keycode == RETROK_RIGHTBRACKET {
        Some(HostKey::RightBracket)
    } else if keycode == RETROK_BACKSLASH {
        Some(HostKey::Backslash)
    } else if keycode == RETROK_EQUALS {
        Some(HostKey::Equals)
    } else if RETROK_F1 <= keycode && keycode <= RETROK_F12 {
        Some(HostKey::Function((keycode - RETROK_F1 + 1) as u8))
    } else if RETROK_A <= keycode && keycode <= RETROK_Z {
        Some(HostKey::Letter(char_from_ascii(keycode - 32)))
    } else if RETROK_0 <= keycode && keycode <= RETROK_9 {
        Some(HostKey::Digit((keycode - RETROK_0) as u8))
    } else {
        None
    }
}

/// The host key that a RetroPad button stands for.
pub open spec fn retropad_key(button: u32) -> Option<HostKey> {
    if button == RETRO_DEVICE_ID_JOYPAD_UP {
        Some(HostKey::Up)
    } else if button == RETRO_DEVICE_ID_JOYPAD_DOWN {
        Some(HostKey::Down)
    } else if button == RETRO_DEVICE_ID_JOYPAD_LEFT {
        Some(HostKey::Left)
    } else if button == RETRO_DEVICE_ID_JOYPAD_RIGHT {
        Some(HostKey::Right)
    } else if button == RETRO_DEVICE_ID_JOYPAD_A {
        Some(HostKey::Return)
    } else if button == RETRO_DEVICE_ID_JOYPAD_B {
        Some(HostKey::Escape)
    } else if button == RETRO_DEVICE_ID_JOYPAD_X {
        Some(HostKey::Function(1))
    } else if button == RETRO_DEVICE_ID_JOYPAD_Y {
        Some(HostKey::Function(4))
    } else if button == RETRO_DEVICE_ID_JOYPAD_L {
        Some(HostKey::PageUp)
    } else if button == RETRO_DEVICE_ID_JOYPAD_R {
        Some(HostKey::PageDown)
    } else if button == RETRO_DEVICE_ID_JOYPAD_START {
        Some(HostKey::Function(10))
    } else if button == RETRO_DEVICE_ID_JOYPAD_SELECT {
        Some(HostKey::Function(11))
    } else {
        None
    }
}

/// Map a RetroPad button to the physical key it stands for.
pub fn retropad_host_key(button: u32) -> (r: Option<HostKey>)
    ensures
        r == retropad_key(button),
{
    if button == RETRO_DEVICE_ID_JOYPAD_UP {
        Some(HostKey::Up)
    } else if button == RETRO_DEVICE_ID_JOYPAD_DOWN {
        Some(HostKey::Down)
    } else if button == RETRO_DEVICE_ID_JOYPAD_LEFT {
        Some(HostKey::Left)
    } else if button == RETRO_DEVICE_ID_JOYPAD_RIGHT {
        Some(HostKey::Right)
    } else if button == RETRO_DEVICE_ID_JOYPAD_A {
        Some(HostKey::Return)
    } else if button == RETRO_DEVICE_ID_JOYPAD_B {
        Some(HostKey::Escape)
    } else if button == RETRO_DEVICE_ID_JOYPAD_X {
        Some(HostKey::Function(1))
    } else if button == RETRO_DEVICE_ID_JOYPAD_Y {
        Some(HostKey::Function(4))
    } else if button == RETRO_DEVICE_ID_JOYPAD_L {
        Some(HostKey::PageUp)
    } else if button == RETRO_DEVICE_ID_JOYPAD_R {
        Some(HostKey::PageDown)
    } else if button == RETRO_DEVICE_ID_JOYPAD_START {
        Some(HostKey::Function(10))
    } else if button == RETRO_DEVICE_ID_JOYPAD_SELECT {
        Some(HostKey::Function(11))
    } else {
        None
    }
}

/// Map a libretro keyboard code to the active model's keypad matrix.
pub fn map_keyboard_key(model: MachineModel, keycode: u32) -> (r: Option<u8>)
    ensures
        r == match retro_key(keycode) {
            Some(host_key) => host_key_id(model, host_key),
            None => None,
        },
{
    match retro_host_key(keycode) {
        Some(host_key) => key_id_for_host_key(model, host_key),
        None => None,
    }
}

/// Map a RetroPad button to the active model's keypad matrix.
pub fn map_joypad_button(model: MachineModel, button: u32) -> (r: Option<u8>)
    ensures
        r == match retropad_key(button) {
            Some(host_key) => host_key_id(model, host_key),
            None => None,
        },
{
    match retropad_host_key(button) {
        Some(host_key) => key_id_for_host_key(model, host_key),
        None => None,
    }
}

// Discriminants of minifb's `Key` enum (`#[repr(u8)]`).
pub const MINIFB_KEY_0: u8 = 0;
pub const MINIFB_KEY_9: u8 = 9;
pub const MINIFB_KEY_A: u8 = 10;
pub const MINIFB_KEY_Z: u8 = 35;
pub const MINIFB_KEY_F1: u8 = 36;
pub const MINIFB_KEY_F12: u8 = 47;
pub const MINIFB_KEY_DOWN: u8 = 51;
pub const MINIFB_KEY_LEFT: u8 = 52;
pub const MINIFB_KEY_RIGHT: u8 = 53;
pub const MINIFB_KEY_UP: u8 = 54;
pub const MINIFB_KEY_BACKSLASH: u8 = 57;
pub const MINIFB_KEY_COMMA: u8 = 58;
pub const MINIFB_KEY_EQUAL: u8 = 59;
pub const MINIFB_KEY_LEFT_BRACKET: u8 = 60;
pub const MINIFB_KEY_PERIOD: u8 = 62;
pub const MINIFB_KEY_RIGHT_BRACKET: u8 = 63;
pub const MINIFB_KEY_SLASH: u8 = 65;
pub const MINIFB_KEY_BACKSPACE: u8 = 66;
pub const MINIFB_KEY_DELETE: u8 = 67;
pub const MINIFB_KEY_ENTER: u8 = 69;
pub const MINIFB_KEY_ESCAPE: u8 = 70;
pub const MINIFB_KEY_PAGE_DOWN: u8 = 74;
pub const MINIFB_KEY_PAGE_UP: u8 = 75;
pub const MINIFB_KEY_SPACE: u8 = 77;

/// The host key of a minifb window key, given by its discriminant.
pub open spec fn minifb_key(code: u8) -> Option<HostKey> {
    if code <= MINIFB_KEY_9 {
        Some(HostKey::Digit(code))
    } else if MINIFB_KEY_A <= code && code <= MINIFB_KEY_Z {
        Some(HostKey::Letter(((code - MINIFB_KEY_A) + ('A' as u32)) as char))
    } else if MINIFB_KEY_F1 <= code && code <= MINIFB_KEY_F12 {
        Some(HostKey::Function((code - MINIFB_KEY_F1 + 1) as u8))
    } else if code == MINIFB_KEY_ENTER {
        Some(HostKey::Return)
    } else if code == MINIFB_KEY_ESCAPE {
        Some(HostKey::Escape)
    } else if code == MINIFB_KEY_SPACE {
        Some(HostKey::Space)
    } else if code == MINIFB_KEY_BACKSPACE {
        Some(HostKey::Backspace)
    } else if code == MINIFB_KEY_DELETE {
        Some(HostKey::Delete)
    } else if code == MINIFB_KEY_UP {
        Some(HostKey::Up)
    } else if code == MINIFB_KEY_DOWN {
        Some(HostKey::Down)
    } else if code == MINIFB_KEY_LEFT {
        Some(HostKey::Left)
    } else if code == MINIFB_KEY_RIGHT {
        Some(HostKey::Right)
    } else if code == MINIFB_KEY_PAGE_UP {
        Some(HostKey::PageUp)
    } else if code == MINIFB_KEY_PAGE_DOWN {
        Some(HostKey::PageDown)
    } else if code == MINIFB_KEY_PERIOD {
        Some(HostKey::Period)
    } else if code == MINIFB_KEY_COMMA {
        Some(HostKey::Comma)
    } else if code == MINIFB_KEY_SLASH {
        Some(HostKey::Slash)
    } else if code == MINIFB_KEY_LEFT_BRACKET {
        Some(HostKey::LeftBracket)
    } else if code == MINIFB_KEY_RIGHT_BRACKET {
        Some(HostKey::RightBracket)
    } else if code == MINIFB_KEY_BACKSLASH {
        Some(HostKey::Backslash)
    } else if code == MINIFB_KEY_EQUAL {
        Some(HostKey::Equals)
    } else {
        None
    }
}

/// Translate a minifb window key, given by its discriminant, into a physical key.
pub fn minifb_host_key(code: u8) -> (r: Option<HostKey>)
    ensures
        r == minifb_key(code),
{
    if code <= MINIFB_KEY_9 {
        Some(HostKey::Digit(code))
    } else if MINIFB_KEY_A <= code && code <= MINIFB_KEY_Z {
        let letter: u32 = ((code - MINIFB_KEY_A) as u32) + ('A' as u32);
        Some(HostKey::Letter(char_from_ascii(letter)))
    } else if MINIFB_KEY_F1 <= code && code <= MINIFB_KEY_F12 {
        Some(HostKey::Function(code - MINIFB_KEY_F1 + 1))
    } else if code == MINIFB_KEY_ENTER {
        Some(HostKey::Return)
    } else if code == MINIFB_KEY_ESCAPE {
        Some(HostKey::Escape)
    } else if code == MINIFB_KEY_SPACE {
        Some(HostKey::Space)
    } else if code == MINIFB_KEY_BACKSPACE {
        Some(HostKey::Backspace)
    } else if code == MINIFB_KEY_DELETE {
        Some(HostKey::Delete)
    } else if code == MINIFB_KEY_UP {
        Some(HostKey::Up)
    } else if code == MINIFB_KEY_DOWN {
        Some(HostKey::Down)
    } else if code == MINIFB_KEY_LEFT {
        Some(HostKey::Left)
    } else if code == MINIFB_KEY_RIGHT {
        Some(HostKey::Right)
    } else if code == MINIFB_KEY_PAGE_UP {
        Some(HostKey::PageUp)
    } else if code == MINIFB_KEY_PAGE_DOWN {
        Some(HostKey::PageDown)
    } else if code == MINIFB_KEY_PERIOD {
        Some(HostKey::Period)
    } else if code == MINIFB_KEY_COMMA {
        Some(HostKey::Comma)
    } else if code == MINIFB_KEY_SLASH {
        Some(HostKey::Slash)
    } else if code == MINIFB_KEY_LEFT_BRACKET {
        Some(HostKey::LeftBracket)
    } else if code == MINIFB_KEY_RIGHT_BRACKET {
        Some(HostKey::RightBracket)
    } else if code == MINIFB_KEY_BACKSLASH {
        Some(HostKey::Backslash)
    } else if code == MINIFB_KEY_EQUAL {
        Some(HostKey::Equals)
    } else {
        None
    }
}

/// Map a minifb window key, given by its discriminant, to the model's keypad matrix.
pub fn map_minifb_key(model: MachineModel, code: u8) -> (r: Option<u8>)
    ensures
        r == match minifb_key(code) {
            Some(host_key) => host_key_id(model, host_key),
            None => None,
        },
{
    match minifb_host_key(code) {
        Some(host_key) => key_id_for_host_key(model, host_key),
        None => None,
    }
}

/// Law: the desktop window and the libretro core read the same physical
/// keyboard. Every letter, digit, function key and named key that both
/// report is the same host key, and so operates the same matrix key on every
/// model.
pub proof fn lemma_frontends_share_the_keyboard()
    ensures
        forall|c: u32|
            RETROK_A <= c <= RETROK_Z ==> (#[trigger] retro_key(c)) is Some && retro_key(c) == minifb_key(
                (c - RETROK_A + MINIFB_KEY_A) as u8,
            ),
        forall|c: u32|
            RETROK_0 <= c <= RETROK_9 ==> (#[trigger] retro_key(c)) is Some && retro_key(c) == minifb_key(
                (c - RETROK_0 + MINIFB_KEY_0) as u8,
            ),
        forall|c: u32|
            RETROK_F1 <= c <= RETROK_F12 ==> (#[trigger] retro_key(c)) is Some && retro_key(c) == minifb_key(
                (c - RETROK_F1 + MINIFB_KEY_F1) as u8,
            ),
        retro_key(RETROK_RETURN) == minifb_key(MINIFB_KEY_ENTER),
        retro_key(RETROK_ESCAPE) == minifb_key(MINIFB_KEY_ESCAPE),
        retro_key(RETROK_SPACE) == minifb_key(MINIFB_KEY_SPACE),
        retro_key(RETROK_BACKSPACE) == minifb_key(MINIFB_KEY_BACKSPACE),
        retro_key(RETROK_DELETE) == minifb_key(MINIFB_KEY_DELETE),
        retro_key(RETROK_UP) == minifb_key(MINIFB_KEY_UP),
        retro_key(RETROK_DOWN) == minifb_key(MINIFB_KEY_DOWN),
        retro_key(RETROK_LEFT) == minifb_key(MINIFB_KEY_LEFT),
        retro_key(RETROK_RIGHT) == minifb_key(MINIFB_KEY_RIGHT),
        retro_key(RETROK_PAGEUP) == minifb_key(MINIFB_KEY_PAGE_UP),
        retro_key(RETROK_PAGEDOWN) == minifb_key(MINIFB_KEY_PAGE_DOWN),
        retro_key(RETROK_PERIOD) == minifb_key(MINIFB_KEY_PERIOD),
        retro_key(RETROK_COMMA) == minifb_key(MINIFB_KEY_COMMA),
        retro_key(RETROK_SLASH) == minifb_key(MINIFB_KEY_SLASH),
        retro_key(RETROK_LEFTBRACKET) == minifb_key(MINIFB_KEY_LEFT_BRACKET),
        retro_key(RETROK_RIGHTBRACKET) == minifb_key(MINIFB_KEY_RIGHT_BRACKET),
        retro_key(RETROK_BACKSLASH) == minifb_key(MINIFB_KEY_BACKSLASH),
        retro_key(RETROK_EQUALS) == minifb_key(MINIFB_KEY_EQUAL),
{
}

} // verus!
