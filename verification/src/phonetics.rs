//! Structural checks on resolved syllables: onset, nucleus and coda shapes.
//!
//! These are blacklist-style checks kept for callers that still validate
//! resolved output; the engine itself validates raw keys through `tables`.

use vstd::prelude::*;

verus! {

/// Two-letter clusters that never open a Vietnamese syllable.
pub open spec fn invalid_onset_pair(a: char, b: char) -> bool {
        (a == 'c' && b == 'l') ||
        (a == 'f' && b == 'l') ||
        (a == 'b' && b == 'l') ||
        (a == 'g' && b == 'l') ||
        (a == 's' && b == 'l') ||
        (a == 'p' && b == 'l') ||
        (a == 'b' && b == 'r') ||
        (a == 'b' && b == 'h') ||
        (a == 'p' && b == 'r') ||
        (a == 'd' && b == 'r') ||
        (a == 'f' && b == 'r') ||
        (a == 'g' && b == 'r') ||
        (a == 'k' && b == 'r') ||
        (a == 's' && b == 't') ||
        (a == 's' && b == 'p') ||
        (a == 's' && b == 'k') ||
        (a == 'p' && b == 't') ||
        (a == 'p' && b == 'c') ||
        (a == 'p' && b == 'g') ||
        (a == 'p' && b == 'q') ||
        (a == 'p' && b == 's') ||
        (a == 'p' && b == 'k') ||
        (a == 'p' && b == 'd') ||
        (a == 'p' && b == 'f') ||
        (a == 'p' && b == 'b') ||
        (a == 'c' && b == 'r') ||
        (a == 'd' && b == 'j') ||
        (a == 'd' && b == 'w') ||
        (a == 'f' && b == 'f') ||
        (a == 'f' && b == 's') ||
        (a == 'f' && b == 't') ||
        (a == 'g' && b == 'g') ||
        (a == 'g' && b == 'j') ||
        (a == 'g' && b == 'w') ||
        (a == 'h' && b == 'h') ||
        (a == 'h' && b == 'j') ||
        (a == 'h' && b == 'w') ||
        (a == 'j' && b == 'j') ||
        (a == 'j' && b == 'r') ||
        (a == 'k' && b == 'k') ||
        (a == 'k' && b == 'j') ||
        (a == 'k' && b == 'w') ||
        (a == 'l' && b == 'l') ||
        (a == 'l' && b == 'j') ||
        (a == 'l' && b == 'w') ||
        (a == 'm' && b == 'm') ||
        (a == 'm' && b == 'j') ||
        (a == 'm' && b == 'r') ||
        (a == 'm' && b == 'w') ||
        (a == 'n' && b == 'n') ||
        (a == 'n' && b == 'j') ||
        (a == 'n' && b == 'w') ||
        (a == 'r' && b == 'r') ||
        (a == 'r' && b == 'j') ||
        (a == 'r' && b == 'w') ||
        (a == 's' && b == 's') ||
        (a == 's' && b == 'j') ||
        (a == 's' && b == 'w') ||
        (a == 't' && b == 't') ||
        (a == 't' && b == 'j') ||
        (a == 't' && b == 'w') ||
        (a == 'v' && b == 'v') ||
        (a == 'v' && b == 'j') ||
        (a == 'v' && b == 'w') ||
        (a == 'x' && b == 'x') ||
        (a == 'x' && b == 'j') ||
        (a == 'x' && b == 'w') ||
        (a == 'z' && b == 'z') ||
        (a == 'z' && b == 'j') ||
        (a == 'z' && b == 'w') ||
        (a == 'q' && b == 'q') ||
        (a == 'q' && b == 'j') ||
        (a == 'q' && b == 'r') ||
        (a == 'q' && b == 't') ||
        (a == 'q' && b == 'c') ||
        (a == 'q' && b == 'l') ||
        (a == 'q' && b == 'b') ||
        (a == 'q' && b == 'f')
}

fn is_invalid_onset_pair(a: char, b: char) -> (r: bool)
    ensures
        r == invalid_onset_pair(a, b),
{
    match a {
        'c' => matches!(b, 'l' | 'r'),
        'f' => matches!(b, 'l' | 'r' | 'f' | 's' | 't'),
        'b' => matches!(b, 'l' | 'r' | 'h'),
        'g' => matches!(b, 'l' | 'r' | 'g' | 'j' | 'w'),
        's' => matches!(b, 'l' | 't' | 'p' | 'k' | 's' | 'j' | 'w'),
        'p' => matches!(b, 'l' | 'r' | 't' | 'c' | 'g' | 'q' | 's' | 'k' | 'd' | 'f' | 'b'),
        'd' => matches!(b, 'r' | 'j' | 'w'),
        'k' => matches!(b, 'r' | 'k' | 'j' | 'w'),
        'h' => matches!(b, 'h' | 'j' | 'w'),
        'j' => matches!(b, 'j' | 'r'),
        'l' => matches!(b, 'l' | 'j' | 'w'),
        'm' => matches!(b, 'm' | 'j' | 'r' | 'w'),
        'n' => matches!(b, 'n' | 'j' | 'w'),
        'r' => matches!(b, 'r' | 'j' | 'w'),
        't' => matches!(b, 't' | 'j' | 'w'),
        'v' => matches!(b, 'v' | 'j' | 'w'),
        'x' => matches!(b, 'x' | 'j' | 'w'),
        'z' => matches!(b, 'z' | 'j' | 'w'),
        'q' => matches!(b, 'q' | 'j' | 'r' | 't' | 'c' | 'l' | 'b' | 'f'),
        _ => false,
    }
}

/// Whether the `first_vowel_pos` characters before the first vowel form an
/// acceptable onset: none or one character always, two characters unless the
/// pair is a known non-Vietnamese cluster, three only for `ngh`.
pub open spec fn valid_onset(chars: Seq<char>, first_vowel_pos: int) -> bool {
    if first_vowel_pos <= 1 {
        true
    } else if first_vowel_pos == 2 {
        !('a' <= chars[0] <= 'z' && 'a' <= chars[1] <= 'z' && invalid_onset_pair(chars[0], chars[1]))
    } else if first_vowel_pos == 3 {
        chars[0] == 'n' && chars[1] == 'g' && chars[2] == 'h'
    } else {
        false
    }
}

/// Two-vowel clusters accepted as a nucleus.
pub open spec fn valid_nucleus_pair(c0: char, c1: char) -> bool {
        (c0 == 'a' && c1 == 'i') ||
        (c0 == 'a' && c1 == 'o') ||
        (c0 == 'a' && c1 == 'u') ||
        (c0 == 'a' && c1 == 'y') ||
        (c0 == 'e' && c1 == 'o') ||
        (c0 == 'e' && c1 == 'u') ||
        (c0 == 'i' && c1 == 'a') ||
        (c0 == 'i' && c1 == 'e') ||
        (c0 == 'i' && c1 == 'o') ||
        (c0 == 'i' && c1 == 'u') ||
        (c0 == 'o' && c1 == 'a') ||
        (c0 == 'o' && c1 == 'e') ||
        (c0 == 'o' && c1 == 'i') ||
        (c0 == 'o' && c1 == 'o') ||
        (c0 == 'u' && c1 == 'a') ||
        (c0 == 'u' && c1 == 'i') ||
        (c0 == 'u' && c1 == 'o') ||
        (c0 == 'u' && c1 == 'u') ||
        (c0 == 'u' && c1 == 'y') ||
        (c0 == 'y' && c1 == 'a') ||
        (c0 == 'y' && c1 == 'e') ||
        (c0 == 'â' && c1 == 'u') ||
        (c0 == 'â' && c1 == 'y') ||
        (c0 == 'ê' && c1 == 'u') ||
        (c0 == 'ă' && c1 == 'y') ||
        (c0 == 'ơ' && c1 == 'i') ||
        (c0 == 'ô' && c1 == 'i') ||
        (c0 == 'ư' && c1 == 'a') ||
        (c0 == 'ư' && c1 == 'i') ||
        (c0 == 'ư' && c1 == 'o') ||
        (c0 == 'ư' && c1 == 'u') ||
        (c0 == 'y' && c1 == 'ê')
}

/// Three-vowel clusters accepted as a nucleus.
pub open spec fn valid_nucleus_triple(c0: char, c1: char, c2: char) -> bool {
        (c0 == 'i' && c1 == 'ê' && c2 == 'u') ||
        (c0 == 'o' && c1 == 'a' && c2 == 'i') ||
        (c0 == 'o' && c1 == 'a' && c2 == 'y') ||
        (c0 == 'u' && c1 == 'y' && c2 == 'a') ||
        (c0 == 'u' && c1 == 'y' && c2 == 'u') ||
        (c0 == 'ư' && c1 == 'ơ' && c2 == 'i') ||
        (c0 == 'ư' && c1 == 'ơ' && c2 == 'u') ||
        (c0 == 'y' && c1 == 'ê' && c2 == 'u')
}

/// Whether `chars[first..=last]` is an accepted nucleus: any single vowel, or
/// a listed pair or triple.
pub open spec fn valid_nucleus(chars: Seq<char>, first: int, last: int) -> bool {
    let n = last - first + 1;
    if n == 1 {
        true
    } else if n == 2 {
        valid_nucleus_pair(chars[first], chars[first + 1])
    } else if n == 3 {
        valid_nucleus_triple(chars[first], chars[first + 1], chars[first + 2])
    } else {
        false
    }
}

/// Whether the characters after `last_vowel_pos` form a rejected coda: a
/// two-character tail other than `ch`, `ng`, `nh`, or any longer tail.
pub open spec fn invalid_coda(chars: Seq<char>, last_vowel_pos: int) -> bool {
    let trailing = chars.len() - 1 - last_vowel_pos;
    if last_vowel_pos + 2 >= chars.len() {
        false
    } else if trailing == 2 {
        let c1 = chars[last_vowel_pos + 1];
        let c2 = chars[last_vowel_pos + 2];
        !((c1 == 'c' && c2 == 'h') || (c1 == 'n' && c2 == 'g') || (c1 == 'n' && c2 == 'h'))
    } else {
        trailing > 2
    }
}

/// Whether `tone_id` (hỏi = 3 or ngã = 4) is ruled out by a coda `t` or `ch`.
pub open spec fn tone_restricted(chars: Seq<char>, last_vowel_pos: int, tone_id: u8) -> bool {
    let trailing = chars.len() - 1 - last_vowel_pos;
    if tone_id != 3 && tone_id != 4 {
        false
    } else if last_vowel_pos + 1 >= chars.len() {
        false
    } else if trailing == 1 {
        chars[last_vowel_pos + 1] == 't'
    } else if trailing == 2 {
        chars[last_vowel_pos + 1] == 'c' && chars[last_vowel_pos + 2] == 'h'
    } else {
        false
    }
}

/// Checks the leading consonant cluster (before the first vowel).
pub fn is_valid_onset(chars: &[char], first_vowel_pos: usize) -> (r: bool)
    requires
        2 <= first_vowel_pos <= 3 ==> first_vowel_pos <= chars@.len(),
    ensures
        r == valid_onset(chars@, first_vowel_pos as int),
{
    if first_vowel_pos == 0 {
        return true;
    }
    if first_vowel_pos == 1 {
        return true;
    }
    if first_vowel_pos == 2 {
        let c1 = chars[0];
        let c2 = chars[1];
        if 'a' <= c1 && c1 <= 'z' && 'a' <= c2 && c2 <= 'z' {
            if is_invalid_onset_pair(c1, c2) {
                return false;
            }
        }
        return true;
    }
    if first_vowel_pos == 3 {
        return chars[0] == 'n' && chars[1] == 'g' && chars[2] == 'h';
    }
    false
}

/// Checks the vowel cluster `chars[first_vowel_pos..=last_vowel_pos]`.
pub fn is_valid_nucleus(chars: &[char], first_vowel_pos: usize, last_vowel_pos: usize) -> (r: bool)
    requires
        first_vowel_pos <= last_vowel_pos,
        last_vowel_pos - first_vowel_pos < usize::MAX,
        last_vowel_pos - first_vowel_pos + 1 == 2 ==> last_vowel_pos < chars@.len(),
        last_vowel_pos - first_vowel_pos + 1 == 3 ==> last_vowel_pos < chars@.len(),
    ensures
        r == valid_nucleus(chars@, first_vowel_pos as int, last_vowel_pos as int),
{
    let cluster_len = last_vowel_pos - first_vowel_pos + 1;
    if cluster_len == 1 {
        return true;
    }
    if cluster_len == 2 {
        let c0 = chars[first_vowel_pos];
        let c1 = chars[first_vowel_pos + 1];
        return match (c0, c1) {
            ('a', 'i') |
            ('a', 'o') |
            ('a', 'u') |
            ('a', 'y') |
            ('e', 'o') |
            ('e', 'u') |
            ('i', 'a') |
            ('i', 'e') |
            ('i', 'o') |
            ('i', 'u') |
            ('o', 'a') |
            ('o', 'e') |
            ('o', 'i') |
            ('o', 'o') |
            ('u', 'a') |
            ('u', 'i') |
            ('u', 'o') |
            ('u', 'u') |
            ('u', 'y') |
            ('y', 'a') |
            ('y', 'e') |
            ('â', 'u') |
            ('â', 'y') |
            ('ê', 'u') |
            ('ă', 'y') |
            ('ơ', 'i') |
            ('ô', 'i') |
            ('ư', 'a') |
            ('ư', 'i') |
            ('ư', 'o') |
            ('ư', 'u') |
            ('y', 'ê') => true,
            _ => false,
        };
    }
    if cluster_len == 3 {
        let c0 = chars[first_vowel_pos];
        let c1 = chars[first_vowel_pos + 1];
        let c2 = chars[first_vowel_pos + 2];
        return match (c0, c1, c2) {
            ('i', 'ê', 'u') |
            ('o', 'a', 'i') |
            ('o', 'a', 'y') |
            ('u', 'y', 'a') |
            ('u', 'y', 'u') |
            ('ư', 'ơ', 'i') |
            ('ư', 'ơ', 'u') |
            ('y', 'ê', 'u') => true,
            _ => false,
        };
    }
    false
}

/// Returns `true` when the trailing consonants after `last_vowel_pos` are a
/// rejected coda.
pub fn is_invalid_coda(chars: &[char], last_vowel_pos: usize) -> (r: bool)
    requires
        last_vowel_pos + 2 <= usize::MAX,
    ensures
        r == invalid_coda(chars@, last_vowel_pos as int),
{
    let len = chars.len();
    if last_vowel_pos + 2 >= len {
        return false;
    }
    let trailing_len = len - 1 - last_vowel_pos;
    if trailing_len == 2 {
        let c1 = chars[last_vowel_pos + 1];
        let c2 = chars[last_vowel_pos + 2];
        !((c1 == 'c' && c2 == 'h') || (c1 == 'n' && c2 == 'g') || (c1 == 'n' && c2 == 'h'))
    } else {
        trailing_len > 2
    }
}

/// Returns `true` when the coda `t` or `ch` rules out the tone `tone_id`.
pub fn is_tone_restricted(chars: &[char], last_vowel_pos: usize, tone_id: u8) -> (r: bool)
    requires
        last_vowel_pos + 1 <= usize::MAX,
    ensures
        r == tone_restricted(chars@, last_vowel_pos as int, tone_id),
{
    if tone_id != 3 && tone_id != 4 {
        return false;
    }
    let len = chars.len();
    if last_vowel_pos + 1 >= len {
        return false;
    }
    let trailing_len = len - 1 - last_vowel_pos;
    if trailing_len == 1 {
        chars[last_vowel_pos + 1] == 't'
    } else if trailing_len == 2 {
        let c1 = chars[last_vowel_pos + 1];
        let c2 = chars[last_vowel_pos + 2];
        c1 == 'c' && c2 == 'h'
    } else {
        false
    }
}

} // verus!
