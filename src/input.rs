//! The input latch the host fills from the keyboard.
use vstd::prelude::*;

use crate::constants::INPUTS_COUNT;

verus! {

/// Keypad index of the keyboard key that types `key`, in the usual layout
/// of the hexadecimal keypad on the left of a keyboard:
///
/// ```text
/// 1 2 3 4        1 2 3 C
/// q w e r        4 5 6 D
/// a s d f   ->   7 8 9 E
/// z x c v        A 0 B F
/// ```
pub open spec fn keypad_index(key: char) -> Option<usize> {
    if key == '1' {
        Some(0x1)
    } else if key == '2' {
        Some(0x2)
    } else if key == '3' {
        Some(0x3)
    } else if key == '4' {
        Some(0xC)
    } else if key == 'q' {
        Some(0x4)
    } else if key == 'w' {
        Some(0x5)
    } else if key == 'e' {
        Some(0x6)
    } else if key == 'r' {
        Some(0xD)
    } else if key == 'a' {
        Some(0x7)
    } else if key == 's' {
        Some(0x8)
    } else if key == 'd' {
        Some(0x9)
    } else if key == 'f' {
        Some(0xE)
    } else if key == 'z' {
        Some(0xA)
    } else if key == 'x' {
        Some(0x0)
    } else if key == 'c' {
        Some(0xB)
    } else if key == 'v' {
        Some(0xF)
    } else {
        None
    }
}

/// Which of the sixteen logical keys are held.
pub struct Input {
    pub keys: [bool; INPUTS_COUNT],
}

impl Input {
    /// An input latch with no key held.
    pub fn new() -> (r: Self)
        ensures
            forall|k: int| 0 <= k < INPUTS_COUNT ==> !r.keys@[k],
    {
        Self { keys: [false; INPUTS_COUNT] }
    }

    /// Records whether logical key `key` is held; an index outside the
    /// keypad is ignored.
    pub fn set_key(&mut self, key: usize, pressed: bool)
        ensures
            key < INPUTS_COUNT ==> final(self).keys@ == old(self).keys@.update(key as int, pressed),
            key >= INPUTS_COUNT ==> final(self).keys@ == old(self).keys@,
    {
        if key < INPUTS_COUNT {
            self.keys[key] = pressed;
        }
    }

    /// Maps the keyboard key that types `key` to its keypad index.
    pub fn map_key(key: char) -> (r: Option<usize>)
        ensures
            r == keypad_index(key),
            r matches Some(k) ==> k < INPUTS_COUNT,
    {
        match key {
            '1' => Some(0x1),
            '2' => Some(0x2),
            '3' => Some(0x3),
            '4' => Some(0xC),
            'q' => Some(0x4),
            'w' => Some(0x5),
            'e' => Some(0x6),
            'r' => Some(0xD),
            'a' => Some(0x7),
            's' => Some(0x8),
            'd' => Some(0x9),
            'f' => Some(0xE),
            'z' => Some(0xA),
            'x' => Some(0x0),
            'c' => Some(0xB),
            'v' => Some(0xF),
            _ => None,
        }
    }
}

} // verus!
