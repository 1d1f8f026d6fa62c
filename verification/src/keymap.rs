//! The fixed table from host keys to the sixteen keys of the keypad.
//!
//! A host key is named by its key code: for the keys of this table that is
//! the character code of the symbol the key types unshifted. The left block
//! of a QWERTY keyboard stands for the keypad, row by row:
//!
//! ```text
//!   host keys      keypad
//!   1 2 3 4        1 2 3 C
//!   q w e r        4 5 6 D
//!   a s d f        7 8 9 E
//!   z x c v        A 0 B F
//! ```

use vstd::prelude::*;

verus! {

/// The keypad key that the host key with code `key` stands for, if any.
pub open spec fn keypad_key(key: i32) -> Option<usize> {
    if key == 0x31 {
        Some(0x1usize)
    } else if key == 0x32 {
        Some(0x2usize)
    } else if key == 0x33 {
        Some(0x3usize)
    } else if key == 0x34 {
        Some(0xCusize)
    } else if key == 0x71 {
        Some(0x4usize)
    } else if key == 0x77 {
        Some(0x5usize)
    } else if key == 0x65 {
        Some(0x6usize)
    } else if key == 0x72 {
        Some(0xDusize)
    } else if key == 0x61 {
        Some(0x7usize)
    } else if key == 0x73 {
        Some(0x8usize)
    } else if key == 0x64 {
        Some(0x9usize)
    } else if key == 0x66 {
        Some(0xEusize)
    } else if key == 0x7A {
        Some(0xAusize)
    } else if key == 0x78 {
        Some(0x0usize)
    } else if key == 0x63 {
        Some(0xBusize)
    } else if key == 0x76 {
        Some(0xFusize)
    } else {
        None
    }
}

/// Maps a host key code to the keypad key it stands for. Keys outside the
/// table map to `None`.
pub fn keymaps(key: i32) -> (r: Option<usize>)
    ensures
        r == keypad_key(key),
        r matches Some(k) ==> k < 16,
{
    match key {
        0x31 => Some(0x1),
        0x32 => Some(0x2),
        0x33 => Some(0x3),
        0x34 => Some(0xC),
        0x71 => Some(0x4),
        0x77 => Some(0x5),
        0x65 => Some(0x6),
        0x72 => Some(0xD),
        0x61 => Some(0x7),
        0x73 => Some(0x8),
        0x64 => Some(0x9),
        0x66 => Some(0xE),
        0x7A => Some(0xA),
        0x78 => Some(0x0),
        0x63 => Some(0xB),
        0x76 => Some(0xF),
        _ => None,
    }
}

/// No two host keys stand for the same keypad key.
pub proof fn lemma_keymap_injective(a: i32, b: i32)
    requires
        keypad_key(a) is Some,
        keypad_key(a) == keypad_key(b),
    ensures
        a == b,
{
}

/// Every keypad key has a host key that stands for it.
pub proof fn lemma_keymap_onto(k: usize)
    requires
        k < 16,
    ensures
        exists|key: i32| keypad_key(key) == Some(k),
{
    let key: i32 = if k == 0x0 {
        0x78
    } else if k == 0x1 {
        0x31
    } else if k == 0x2 {
        0x32
    } else if k == 0x3 {
        0x33
    } else if k == 0x4 {
        0x71
    } else if k == 0x5 {
        0x77
    } else if k == 0x6 {
        0x65
    } else if k == 0x7 {
        0x61
    } else if k == 0x8 {
        0x73
    } else if k == 0x9 {
        0x64
    } else if k == 0xA {
        0x7A
    } else if k == 0xB {
        0x63
    } else if k == 0xC {
        0x34
    } else if k == 0xD {
        0x72
    } else if k == 0xE {
        0x66
    } else {
        0x76
    };
    assert(keypad_key(key) == Some(k));
}

} // verus!
