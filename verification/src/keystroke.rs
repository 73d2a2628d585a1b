//! From hexadecimal characters to keystrokes.
//!
//! Each character of the identifier's text becomes one keystroke without
//! modifiers. When the hotkey wrap is on, a fixed chord precedes the digits
//! and another follows them, so that the host can tell scanned input from
//! typed input.

use vstd::prelude::*;

use crate::hexcode::{hex_char, hex_string, identifier_hex, is_lower_hex};
use crate::tag::TagIdentifier;

verus! {

/// Keycode of the chord sent before the digits.
pub const HOTKEY_OPEN: u8 = 24;

/// Keycode of the chord sent after the digits.
pub const HOTKEY_CLOSE: u8 = 7;

/// Modifier bits of both chords: left control, left shift and left alt.
pub const HOTKEY_MODIFIER: u8 = 7;

/// One logical keystroke: a key, and the modifier bits held with it.
#[derive(Clone, Copy, Debug, PartialEq, Eq, Structural)]
pub struct Keystroke {
    pub keycode: u8,
    pub modifier: u8,
}

/// `c - d` in eight-bit unsigned arithmetic: below zero it wraps around.
pub open spec fn wrapping_diff(c: u8, d: u8) -> u8 {
    if c >= d {
        (c - d) as u8
    } else {
        (c + 256 - d) as u8
    }
}

/// The keycode for a character of the identifier's text.
///
/// `0` has a keycode of its own; characters up to `8` lie 19 above their
/// keycodes, all others 93. For the letters `a` to `f` that gives the
/// keycodes 4 to 9. For `9` the subtraction wraps and gives 220, which is
/// no key of a keyboard: the table is kept as it is.
pub open spec fn keycode_of(c: u8) -> u8 {
    if c == 48 {
        39
    } else if c <= 56 {
        wrapping_diff(c, 19)
    } else {
        wrapping_diff(c, 93)
    }
}

/// The keystrokes for the text of `bytes`: one per character, no modifier.
pub open spec fn digit_keystrokes(bytes: Seq<u8>) -> Seq<Keystroke> {
    Seq::new(
        2 * bytes.len(),
        |j: int| Keystroke { keycode: keycode_of(hex_char(bytes, j)), modifier: 0 },
    )
}

/// The chord that opens a wrapped sequence.
pub open spec fn opening_chord() -> Keystroke {
    Keystroke { keycode: HOTKEY_OPEN, modifier: HOTKEY_MODIFIER }
}

/// The chord that closes a wrapped sequence.
pub open spec fn closing_chord() -> Keystroke {
    Keystroke { keycode: HOTKEY_CLOSE, modifier: HOTKEY_MODIFIER }
}

/// The whole keystroke sequence for one detection: the digits, between the
/// two chords when `hotkey` is set.
pub open spec fn keystroke_sequence(bytes: Seq<u8>, hotkey: bool) -> Seq<Keystroke> {
    if hotkey {
        seq![opening_chord()] + digit_keystrokes(bytes) + seq![closing_chord()]
    } else {
        digit_keystrokes(bytes)
    }
}

/// Maps one character of the identifier's text to its keycode.
pub fn keycode(c: u8) -> (k: u8)
    ensures
        k == keycode_of(c),
{
    if c == 48 {
        39
    } else if c <= 56 {
        c.wrapping_sub(19)
    } else {
        c.wrapping_sub(93)
    }
}

/// Computes the keystrokes for one detected tag. `hotkey` is the mode input
/// as sampled at detection.
pub fn keystrokes(id: &TagIdentifier, hotkey: bool) -> (keys: Vec<Keystroke>)
    ensures
        keys@ == keystroke_sequence(id@, hotkey),
{
    let text = identifier_hex(id);
    let mut keys: Vec<Keystroke> = Vec::new();
    if hotkey {
        keys.push(Keystroke { keycode: HOTKEY_OPEN, modifier: HOTKEY_MODIFIER });
    }
    let ghost lead = keys@;
    let mut j: usize = 0;
    while j < text.len()
        invariant
            j <= text@.len(),
            text@ == hex_string(id@),
            keys@.len() == lead.len() + j,
            keys@.take(lead.len() as int) == lead,
            forall|k: int| 0 <= k < j ==> keys@[lead.len() + k] == digit_keystrokes(id@)[k],
        decreases text@.len() - j,
    {
        keys.push(Keystroke { keycode: keycode(text[j]), modifier: 0 });
        j += 1;
    }
    assert(keys@ =~= lead + digit_keystrokes(id@));
    if hotkey {
        keys.push(Keystroke { keycode: HOTKEY_CLOSE, modifier: HOTKEY_MODIFIER });
    }
    assert(keys@ =~= keystroke_sequence(id@, hotkey));
    keys
}

/// The keycode table on the sixteen characters an encoding can hold.
pub proof fn lemma_keycode_table(c: u8)
    requires
        is_lower_hex(c),
    ensures
        c == 48 ==> keycode_of(c) == 39,
        49 <= c <= 56 ==> keycode_of(c) == c - 19 && 30 <= keycode_of(c) <= 37,
        97 <= c <= 102 ==> keycode_of(c) == c - 93 && 4 <= keycode_of(c) <= 9,
        c == 57 ==> keycode_of(c) == 220,
{
}

/// An identifier of `n` bytes gives `2 * n` digit keystrokes, none of them
/// with a modifier; the wrap adds one chord before and one after.
pub proof fn lemma_keystroke_count(bytes: Seq<u8>, hotkey: bool)
    ensures
        digit_keystrokes(bytes).len() == 2 * bytes.len(),
        forall|j: int| 0 <= j < 2 * bytes.len() ==> (#[trigger] digit_keystrokes(bytes)[j]).modifier == 0,
        keystroke_sequence(bytes, false) == digit_keystrokes(bytes),
        keystroke_sequence(bytes, true).len() == 2 * bytes.len() + 2,
        keystroke_sequence(bytes, true).first() == opening_chord(),
        keystroke_sequence(bytes, true).last() == closing_chord(),
        keystroke_sequence(bytes, true).subrange(1, 2 * bytes.len() as int + 1) == digit_keystrokes(bytes),
{
    assert(keystroke_sequence(bytes, true).subrange(1, 2 * bytes.len() as int + 1) =~= digit_keystrokes(
        bytes,
    ));
}

} // verus!
