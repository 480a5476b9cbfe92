//! Character predicates shared by the engines.

use vstd::prelude::*;

verus! {

/// The Unicode `White_Space` characters.
pub open spec fn white_space(c: char) -> bool {
    let u = c as u32;
    (9 <= u <= 13) || u == 32 || u == 0x85 || u == 0xA0 || u == 0x1680 || (0x2000 <= u <= 0x200A)
        || u == 0x2028 || u == 0x2029 || u == 0x202F || u == 0x205F || u == 0x3000
}

/// Whether `c` has the Unicode `White_Space` property.
pub fn is_whitespace(c: char) -> (r: bool)
    ensures
        r == white_space(c),
{
    let u = c as u32;
    (9 <= u && u <= 13) || u == 32 || u == 0x85 || u == 0xA0 || u == 0x1680 || (0x2000 <= u && u
        <= 0x200A) || u == 0x2028 || u == 0x2029 || u == 0x202F || u == 0x205F || u == 0x3000
}

/// `c` with an ASCII upper-case letter turned to lower case.
pub open spec fn ascii_lower(c: char) -> char {
    if 'A' <= c <= 'Z' {
        ((c as u32) + 32) as char
    } else {
        c
    }
}

pub fn to_ascii_lowercase(c: char) -> (r: char)
    ensures
        r == ascii_lower(c),
{
    if 'A' <= c && c <= 'Z' {
        let code: u32 = (c as u32) + 32;
        crate::tone::char_from_ascii(code as u8)
    } else {
        c
    }
}

/// The low byte of the code of `c` (what `c as u8` keeps).
pub open spec fn low_byte(c: char) -> u8 {
    ((c as u32) % 256) as u8
}

pub fn char_low_byte(c: char) -> (b: u8)
    ensures
        b == low_byte(c),
{
    let u = c as u32;
    (u % 256) as u8
}

/// An ASCII vowel letter `a e i o u y`.
pub open spec fn ascii_vowel(b: u8) -> bool {
    crate::modes::is_vowel_byte(b)
}

pub fn is_ascii_vowel(b: u8) -> (r: bool)
    ensures
        r == ascii_vowel(b),
{
    crate::modes::is_vowel_key(b)
}

/// The characters that end the word being composed.
pub open spec fn word_boundary(c: char) -> bool {
    white_space(c) || c == '.' || c == ',' || c == '!' || c == '?' || c == ';' || c == ':'
        || c == '"' || c == '\'' || c == '(' || c == ')' || c == '[' || c == ']' || c == '{'
        || c == '}' || c == '\n' || c == '\r' || c == '\t'
}

/// Returns true for characters that end the current composing word.
pub fn is_word_boundary(ch: char) -> (r: bool)
    ensures
        r == word_boundary(ch),
{
    is_whitespace(ch) || ch == '.' || ch == ',' || ch == '!' || ch == '?' || ch == ';' || ch == ':'
        || ch == '"' || ch == '\'' || ch == '(' || ch == ')' || ch == '[' || ch == ']' || ch == '{'
        || ch == '}' || ch == '\n' || ch == '\r' || ch == '\t'
}


/// Law: the characters that end a word are exactly the whitespace
/// characters (space, tab, line feed, carriage return among them) and the
/// punctuation `. , ! ? ; : " ' ( ) [ ] { }`; letters and digits never end a
/// word.
pub proof fn word_boundary_characters(c: char)
    ensures
        c == ' ' || c == '\t' || c == '\n' || c == '\r' ==> word_boundary(c),
        c == '.' || c == ',' || c == '!' || c == '?' || c == ';' || c == ':' || c == '"' || c == '\''
            || c == ')' || c == '(' || c == '[' || c == ']' || c == '{' || c == '}' ==> word_boundary(c),
        word_boundary(c) ==> white_space(c) || c == '.' || c == ',' || c == '!' || c == '?' || c == ';'
            || c == ':' || c == '"' || c == '\'' || c == ')' || c == '(' || c == '[' || c == ']' || c == '{'
            || c == '}',
        ('a' <= c <= 'z') || ('A' <= c <= 'Z') || ('0' <= c <= '9') ==> !word_boundary(c),
{
}

} // verus!
