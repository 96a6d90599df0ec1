//! Native window events: the raw records the window hands out, what each of
//! them means, and how keys are named.

use crate::event::Key;
use orbclient::EventOption;
use vstd::prelude::*;

verus! {

/// A raw window event as the Orbital client library delivers it: a code and two payload words.
#[derive(Clone, Copy, Debug, PartialEq, Eq, Structural)]
pub struct RawEvent {
    pub code: i64,
    pub a: i64,
    pub b: i64,
}

/// A native event, reduced to the kinds the backend reacts to.
#[derive(Clone, Copy, Debug, PartialEq, Eq, Structural)]
pub enum NativeEvent {
    /// The pointer moved to an absolute position.
    Mouse { x: i32, y: i32 },
    /// The state of the three mouse buttons after a change.
    Button { left: bool, middle: bool, right: bool },
    /// A key changed state.
    Key { scancode: u8, character: char, pressed: bool },
    /// The window was asked to close.
    Quit,
    /// The window has a new size.
    Resize { width: u32, height: u32 },
    /// Any other kind of event; the backend ignores it.
    Other,
}

/// The low eight bits of `word`: what a cast of the word to `u8` keeps.
pub open spec fn low_byte(word: i64) -> u8 {
    (word as int % 0x100) as u8
}

/// The low 32 bits of `word`, read as an unsigned number: what a cast of the word to `u32`
/// keeps.
pub open spec fn low_word(word: i64) -> u32 {
    (word as int % 0x1_0000_0000) as u32
}

/// The low 32 bits of `word`, read as a signed number in two's complement: what a cast of
/// the word to `i32` keeps.
pub open spec fn low_word_signed(word: i64) -> i32 {
    if word as int % 0x1_0000_0000 < 0x8000_0000 {
        (word as int % 0x1_0000_0000) as i32
    } else {
        (word as int % 0x1_0000_0000 - 0x1_0000_0000) as i32
    }
}

/// Whether `word`, in two's complement, has the bit of weight `weight` set, for a weight
/// that is a power of two: whether masking the word with the weight leaves the weight.
pub open spec fn has_bit(word: i64, weight: int) -> bool {
    (word as int / weight) % 2 == 1
}

/// The character with code point `code`, or the NUL character where `code` is no Unicode
/// scalar value: a surrogate, or beyond the last code point.
pub open spec fn character_or_nul(code: u32) -> char {
    if code <= 0xD7FF || (0xE000 <= code && code <= 0x10FFFF) {
        code as char
    } else {
        '\0'
    }
}

/// What a raw event means. The code tells the kinds apart: 1 is a key, 2 a pointer move, 3 a
/// button change, 5 a quit request and 8 a resize; every other code is of no interest here.
///
/// - A key has its character in the low 32 bits of `a`, its scancode in the low byte of `b`
///   and its pressed flag in the bit of weight `0x100` of `b`.
/// - A pointer move has its coordinates in the low 32 bits of `a` and `b`, signed.
/// - A button change has the left, middle and right button in the three lowest bits of `a`.
/// - A resize has width and height in the low 32 bits of `a` and `b`, unsigned.
pub open spec fn decoded(raw: RawEvent) -> NativeEvent {
    if raw.code == 1 {
        NativeEvent::Key {
            scancode: low_byte(raw.b),
            character: character_or_nul(low_word(raw.a)),
            pressed: has_bit(raw.b, 0x100),
        }
    } else if raw.code == 2 {
        NativeEvent::Mouse { x: low_word_signed(raw.a), y: low_word_signed(raw.b) }
    } else if raw.code == 3 {
        NativeEvent::Button {
            left: has_bit(raw.a, 1),
            middle: has_bit(raw.a, 2),
            right: has_bit(raw.a, 4),
        }
    } else if raw.code == 5 {
        NativeEvent::Quit
    } else if raw.code == 8 {
        NativeEvent::Resize { width: low_word(raw.a), height: low_word(raw.b) }
    } else {
        NativeEvent::Other
    }
}

/// Decodes a raw event with `orbclient::Event::to_option`.
///
/// Trusted, not proved: the result is `decoded(raw)`. `to_option` picks the event kind by the
/// code and fills the fields of that kind by casts and bit tests on the two payload words.
/// Of the kinds it knows, the five that `NativeEvent` names are handed on field by field;
/// every other kind, and every unknown code, comes back as `NativeEvent::Other`.
#[verifier::external_body]
pub(crate) fn decode(raw: RawEvent) -> (event: NativeEvent)
    ensures
        event == decoded(raw),
{
    match (orbclient::Event { code: raw.code, a: raw.a, b: raw.b }).to_option() {
        EventOption::Mouse(m) => NativeEvent::Mouse { x: m.x, y: m.y },
        EventOption::Button(b) => {
            NativeEvent::Button { left: b.left, middle: b.middle, right: b.right }
        },
        EventOption::Key(k) => {
            NativeEvent::Key { scancode: k.scancode, character: k.character, pressed: k.pressed }
        },
        EventOption::Quit(_) => NativeEvent::Quit,
        EventOption::Resize(r) => NativeEvent::Resize { width: r.width, height: r.height },
        _ => NativeEvent::Other,
    }
}

/// The scancode of the backspace key, `orbclient::K_BKSP`.
///
/// Trusted, not proved: its value is `0x0E`.
#[verifier::external_body]
pub(crate) fn backspace_scancode() -> (scancode: u8)
    ensures
        scancode == 0x0E,
{
    orbclient::K_BKSP
}

/// The scancode of the up arrow key, `orbclient::K_UP`.
///
/// Trusted, not proved: its value is `0x48`.
#[verifier::external_body]
pub(crate) fn up_scancode() -> (scancode: u8)
    ensures
        scancode == 0x48,
{
    orbclient::K_UP
}

/// The scancode of the down arrow key, `orbclient::K_DOWN`.
///
/// Trusted, not proved: its value is `0x50`.
#[verifier::external_body]
pub(crate) fn down_scancode() -> (scancode: u8)
    ensures
        scancode == 0x50,
{
    orbclient::K_DOWN
}

/// The scancode of the left arrow key, `orbclient::K_LEFT`.
///
/// Trusted, not proved: its value is `0x4B`.
#[verifier::external_body]
pub(crate) fn left_scancode() -> (scancode: u8)
    ensures
        scancode == 0x4B,
{
    orbclient::K_LEFT
}

/// The scancode of the right arrow key, `orbclient::K_RIGHT`.
///
/// Trusted, not proved: its value is `0x4D`.
#[verifier::external_body]
pub(crate) fn right_scancode() -> (scancode: u8)
    ensures
        scancode == 0x4D,
{
    orbclient::K_RIGHT
}

/// The key that a scancode names by itself, whatever character came with it.
pub open spec fn scancode_key(scancode: u8) -> Option<Key> {
    if scancode == 0x0E {
        Some(Key::Backspace)
    } else if scancode == 0x48 {
        Some(Key::Up)
    } else if scancode == 0x50 {
        Some(Key::Down)
    } else if scancode == 0x4B {
        Some(Key::Left)
    } else if scancode == 0x4D {
        Some(Key::Right)
    } else {
        None
    }
}

/// The key that a key event stands for: the scancode decides where it names a key; otherwise
/// a line feed is the enter key and any other character is its own key.
pub open spec fn key_of(scancode: u8, character: char) -> Key {
    match scancode_key(scancode) {
        Some(key) => key,
        None => if character == '\n' {
            Key::Enter
        } else {
            Key::Character(character)
        },
    }
}

/// Names the key of a key event.
pub fn map_key(scancode: u8, character: char) -> (key: Key)
    ensures
        key == key_of(scancode, character),
{
    if scancode == backspace_scancode() {
        Key::Backspace
    } else if scancode == up_scancode() {
        Key::Up
    } else if scancode == down_scancode() {
        Key::Down
    } else if scancode == left_scancode() {
        Key::Left
    } else if scancode == right_scancode() {
        Key::Right
    } else if character == '\n' {
        Key::Enter
    } else {
        Key::from(character)
    }
}

/// A scancode that names a key decides alone: the character that came with it changes
/// nothing. Without such a scancode, a line feed is always the enter key.
pub proof fn lemma_scancode_takes_precedence(scancode: u8, character: char, other: char)
    ensures
        scancode_key(scancode) matches Some(key) ==> key_of(scancode, character) == key && key_of(
            scancode,
            other,
        ) == key,
        scancode_key(scancode).is_none() ==> key_of(scancode, '\n') == Key::Enter,
        scancode_key(scancode).is_none() && character != '\n' ==> key_of(scancode, character)
            == Key::Character(character),
{
}

} // verus!
