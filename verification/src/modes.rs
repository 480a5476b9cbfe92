//! Input methods and how each classifies a raw key.

use vstd::prelude::*;

verus! {

/// The typing convention in use.
#[derive(Clone, Copy, Debug, PartialEq, Eq, Structural)]
pub enum InputMethod {
    /// Letters as modifiers (`aa`, `aw`, `dd`) and tones (`s f r x j z`).
    Telex,
    /// Digits as modifiers (`6 7 8 9`) and tones (`1 2 3 4 5 0`).
    Vni,
}

/// Flag bit: the key is a vowel.
pub const IS_VOWEL: u8 = 1;

/// Flag bit: the key modifies a previous letter (circumflex, horn, đ).
pub const IS_MODIFIER: u8 = 2;

/// Flag bit: the key places or removes a tone mark.
pub const IS_TONE_KEY: u8 = 4;

/// The role a raw key plays in an input method.
#[derive(Clone, Copy, Debug, PartialEq, Eq, Structural)]
pub enum KeyClass {
    Vowel,
    Modifier,
    ToneKey,
    Other,
}

pub open spec fn is_vowel_byte(b: u8) -> bool {
    b == 97 || b == 101 || b == 105 || b == 111 || b == 117 || b == 121
}

/// How `method` classifies the lowercase raw key `b`.
pub open spec fn key_class(method: InputMethod, b: u8) -> KeyClass {
    if is_vowel_byte(b) {
        KeyClass::Vowel
    } else {
        match method {
            InputMethod::Telex => {
                if b == 119 || b == 100 {
                    KeyClass::Modifier
                } else if b == 115 || b == 102 || b == 114 || b == 120 || b == 106 || b == 122 {
                    KeyClass::ToneKey
                } else {
                    KeyClass::Other
                }
            },
            InputMethod::Vni => {
                if 54 <= b <= 57 {
                    KeyClass::Modifier
                } else if 48 <= b <= 53 {
                    KeyClass::ToneKey
                } else {
                    KeyClass::Other
                }
            },
        }
    }
}

/// The tone a tone key selects: 1 sắc, 2 huyền, 3 hỏi, 4 ngã, 5 nặng,
/// 0 removal. Keys that are not tone keys map to 0.
pub open spec fn tone_value(method: InputMethod, b: u8) -> u8 {
    match method {
        InputMethod::Telex => {
            if b == 115 {
                1
            } else if b == 102 {
                2
            } else if b == 114 {
                3
            } else if b == 120 {
                4
            } else if b == 106 {
                5
            } else {
                0
            }
        },
        InputMethod::Vni => {
            if 49 <= b <= 53 {
                (b - 48) as u8
            } else {
                0
            }
        },
    }
}

pub open spec fn class_flags(c: KeyClass) -> u8 {
    match c {
        KeyClass::Vowel => IS_VOWEL,
        KeyClass::Modifier => IS_MODIFIER,
        KeyClass::ToneKey => IS_TONE_KEY,
        KeyClass::Other => 0,
    }
}

pub fn is_vowel_key(b: u8) -> (r: bool)
    ensures
        r == is_vowel_byte(b),
{
    b == ('a' as u8) || b == ('e' as u8) || b == ('i' as u8) || b == ('o' as u8) || b == ('u' as u8) || b == ('y' as u8)
}

pub fn classify(method: InputMethod, b: u8) -> (c: KeyClass)
    ensures
        c == key_class(method, b),
{
    if is_vowel_key(b) {
        return KeyClass::Vowel;
    }
    match method {
        InputMethod::Telex => {
            if b == ('w' as u8) || b == ('d' as u8) {
                KeyClass::Modifier
            } else if b == ('s' as u8) || b == ('f' as u8) || b == ('r' as u8) || b == ('x' as u8) || b == ('j' as u8) || b == ('z' as u8) {
                KeyClass::ToneKey
            } else {
                KeyClass::Other
            }
        },
        InputMethod::Vni => {
            if ('6' as u8) <= b && b <= ('9' as u8) {
                KeyClass::Modifier
            } else if ('0' as u8) <= b && b <= ('5' as u8) {
                KeyClass::ToneKey
            } else {
                KeyClass::Other
            }
        },
    }
}

/// The classification of `b` as flag bits (`IS_VOWEL`, `IS_MODIFIER`, `IS_TONE_KEY`).
pub fn classify_flags(method: InputMethod, b: u8) -> (f: u8)
    ensures
        f == class_flags(key_class(method, b)),
{
    match classify(method, b) {
        KeyClass::Vowel => IS_VOWEL,
        KeyClass::Modifier => IS_MODIFIER,
        KeyClass::ToneKey => IS_TONE_KEY,
        KeyClass::Other => 0,
    }
}

pub fn tone_of(method: InputMethod, b: u8) -> (t: u8)
    ensures
        t == tone_value(method, b),
        t <= 5,
{
    match method {
        InputMethod::Telex => {
            if b == ('s' as u8) {
                1
            } else if b == ('f' as u8) {
                2
            } else if b == ('r' as u8) {
                3
            } else if b == ('x' as u8) {
                4
            } else if b == ('j' as u8) {
                5
            } else {
                0
            }
        },
        InputMethod::Vni => {
            if ('1' as u8) <= b && b <= ('5' as u8) {
                b - ('0' as u8)
            } else {
                0
            }
        },
    }
}

} // verus!
