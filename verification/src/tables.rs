//! Positive tables of Vietnamese syllable parts.
//!
//! A word is taken as Vietnamese only when its onset, nucleus and coda each
//! appear here; anything else is passed through as typed.

use vstd::prelude::*;

verus! {

/// Single letters accepted as an onset (the plain consonants, plus `f j w z`
/// typed in loan words).
pub open spec fn onset_letter(a: u8) -> bool {
    a == ('b' as u8) || a == ('c' as u8) || a == ('d' as u8) || a == ('g' as u8) || a == ('h' as u8) || a == ('k' as u8) || a == ('l' as u8) || a == ('m' as u8) || a == ('n' as u8) || a == ('p' as u8) || a == ('q' as u8) || a == ('r' as u8) || a == ('s' as u8) || a == ('t' as u8) || a == ('v' as u8) || a == ('x' as u8) || a == ('f' as u8) || a == ('j' as u8) || a == ('w' as u8) || a == ('z' as u8)
}

/// Two-letter onsets.
pub open spec fn onset_pair(a: u8, b: u8) -> bool {
        (a == ('c' as u8) && b == ('h' as u8)) ||
        (a == ('g' as u8) && b == ('h' as u8)) ||
        (a == ('g' as u8) && b == ('i' as u8)) ||
        (a == ('k' as u8) && b == ('h' as u8)) ||
        (a == ('n' as u8) && b == ('g' as u8)) ||
        (a == ('n' as u8) && b == ('h' as u8)) ||
        (a == ('p' as u8) && b == ('h' as u8)) ||
        (a == ('q' as u8) && b == ('u' as u8)) ||
        (a == ('t' as u8) && b == ('h' as u8)) ||
        (a == ('t' as u8) && b == ('r' as u8))
}

/// Whether the raw keys `o` form a legal onset (or the empty onset).
pub open spec fn legal_onset(o: Seq<u8>) -> bool {
    if o.len() == 0 {
        true
    } else if o.len() == 1 {
        onset_letter(o[0])
    } else if o.len() == 2 {
        onset_pair(o[0], o[1])
    } else if o.len() == 3 {
        o[0] == ('n' as u8) && o[1] == ('g' as u8) && o[2] == ('h' as u8)
    } else {
        false
    }
}

/// For a legal nucleus (one to three resolved vowels without tone marks), the
/// position within it of the vowel that carries the tone; `None` for any
/// other sequence.
pub open spec fn nucleus_target(n: Seq<char>) -> Option<int> {
    if n.len() == 1 {
        match n[0] {
                'a' => Some(0int),
                'ă' => Some(0int),
                'â' => Some(0int),
                'e' => Some(0int),
                'ê' => Some(0int),
                'i' => Some(0int),
                'o' => Some(0int),
                'ô' => Some(0int),
                'ơ' => Some(0int),
                'u' => Some(0int),
                'ư' => Some(0int),
                'y' => Some(0int),
                _ => None,
        }
    } else if n.len() == 2 {
        match (n[0], n[1]) {
                ('a', 'i') => Some(0int),
                ('a', 'o') => Some(0int),
                ('a', 'u') => Some(0int),
                ('a', 'y') => Some(0int),
                ('â', 'u') => Some(0int),
                ('â', 'y') => Some(0int),
                ('â', 'o') => Some(0int),
                ('e', 'o') => Some(0int),
                ('ê', 'u') => Some(0int),
                ('i', 'a') => Some(0int),
                ('i', 'ê') => Some(1int),
                ('i', 'u') => Some(0int),
                ('o', 'a') => Some(1int),
                ('o', 'ă') => Some(1int),
                ('o', 'e') => Some(1int),
                ('o', 'i') => Some(0int),
                ('ô', 'i') => Some(0int),
                ('ơ', 'i') => Some(0int),
                ('o', 'o') => Some(0int),
                ('u', 'a') => Some(0int),
                ('u', 'â') => Some(1int),
                ('u', 'ê') => Some(1int),
                ('u', 'i') => Some(0int),
                ('u', 'ô') => Some(1int),
                ('u', 'ơ') => Some(1int),
                ('u', 'y') => Some(1int),
                ('ư', 'a') => Some(0int),
                ('ư', 'i') => Some(0int),
                ('ư', 'ơ') => Some(1int),
                ('ư', 'u') => Some(0int),
                ('y', 'ê') => Some(1int),
                _ => None,
        }
    } else if n.len() == 3 {
        match (n[0], n[1], n[2]) {
                ('i', 'ê', 'u') => Some(1int),
                ('y', 'ê', 'u') => Some(1int),
                ('o', 'a', 'i') => Some(1int),
                ('o', 'a', 'y') => Some(1int),
                ('o', 'e', 'o') => Some(1int),
                ('u', 'â', 'y') => Some(1int),
                ('u', 'ô', 'i') => Some(1int),
                ('u', 'y', 'a') => Some(1int),
                ('u', 'y', 'ê') => Some(2int),
                ('u', 'y', 'u') => Some(1int),
                ('ư', 'ơ', 'i') => Some(1int),
                ('ư', 'ơ', 'u') => Some(1int),
                _ => None,
        }
    } else {
        None
    }
}

/// Whether the coda keys `c` are a legal final: none, `c ch m n ng nh p t`.
pub open spec fn legal_coda(c: Seq<u8>) -> bool {
    if c.len() == 0 {
        true
    } else if c.len() == 1 {
        c[0] == ('c' as u8) || c[0] == ('m' as u8) || c[0] == ('n' as u8) || c[0] == ('p' as u8) || c[0] == ('t' as u8)
    } else if c.len() == 2 {
        (c[0] == ('c' as u8) && c[1] == ('h' as u8)) || (c[0] == ('n' as u8) && c[1] == ('g' as u8)) || (c[0] == ('n' as u8) && c[1] == ('h' as u8))
    } else {
        false
    }
}

/// A stop coda: `c`, `ch`, `p` or `t`.
pub open spec fn stop_coda(c: Seq<u8>) -> bool {
    (c.len() == 1 && (c[0] == ('c' as u8) || c[0] == ('p' as u8) || c[0] == ('t' as u8)))
        || (c.len() == 2 && c[0] == ('c' as u8) && c[1] == ('h' as u8))
}

/// After a stop coda only sắc (1) and nặng (5) may stand, or no tone (0).
pub open spec fn tone_allowed(c: Seq<u8>, tone: u8) -> bool {
    stop_coda(c) ==> (tone == 0 || tone == 1 || tone == 5)
}

pub fn is_legal_onset(onset: &[u8]) -> (r: bool)
    ensures
        r == legal_onset(onset@),
{
    let n = onset.len();
    if n == 0 {
        true
    } else if n == 1 {
        let a = onset[0];
        a == ('b' as u8) || a == ('c' as u8) || a == ('d' as u8) || a == ('g' as u8) || a == ('h' as u8) || a == ('k' as u8) || a == ('l' as u8) || a == ('m' as u8) || a == ('n' as u8) || a == ('p' as u8) || a == ('q' as u8) || a == ('r' as u8) || a == ('s' as u8) || a == ('t' as u8) || a == ('v' as u8) || a == ('x' as u8) || a == ('f' as u8) || a == ('j' as u8) || a == ('w' as u8) || a == ('z' as u8)
    } else if n == 2 {
        let a = onset[0];
        let b = onset[1];
        (a == ('c' as u8) && b == ('h' as u8)) ||
        (a == ('g' as u8) && b == ('h' as u8)) ||
        (a == ('g' as u8) && b == ('i' as u8)) ||
        (a == ('k' as u8) && b == ('h' as u8)) ||
        (a == ('n' as u8) && b == ('g' as u8)) ||
        (a == ('n' as u8) && b == ('h' as u8)) ||
        (a == ('p' as u8) && b == ('h' as u8)) ||
        (a == ('q' as u8) && b == ('u' as u8)) ||
        (a == ('t' as u8) && b == ('h' as u8)) ||
        (a == ('t' as u8) && b == ('r' as u8))
    } else if n == 3 {
        onset[0] == ('n' as u8) && onset[1] == ('g' as u8) && onset[2] == ('h' as u8)
    } else {
        false
    }
}

pub fn nucleus_tone_target(nucleus: &[char]) -> (r: Option<usize>)
    ensures
        match nucleus_target(nucleus@) {
            Some(t) => r == Some(t as usize) && 0 <= t < nucleus@.len(),
            None => r is None,
        },
{
    let n = nucleus.len();
    if n == 1 {
        match nucleus[0] {
                'a' => Some(0usize),
                'ă' => Some(0usize),
                'â' => Some(0usize),
                'e' => Some(0usize),
                'ê' => Some(0usize),
                'i' => Some(0usize),
                'o' => Some(0usize),
                'ô' => Some(0usize),
                'ơ' => Some(0usize),
                'u' => Some(0usize),
                'ư' => Some(0usize),
                'y' => Some(0usize),
                _ => None,
        }
    } else if n == 2 {
        match (nucleus[0], nucleus[1]) {
                ('a', 'i') => Some(0usize),
                ('a', 'o') => Some(0usize),
                ('a', 'u') => Some(0usize),
                ('a', 'y') => Some(0usize),
                ('â', 'u') => Some(0usize),
                ('â', 'y') => Some(0usize),
                ('â', 'o') => Some(0usize),
                ('e', 'o') => Some(0usize),
                ('ê', 'u') => Some(0usize),
                ('i', 'a') => Some(0usize),
                ('i', 'ê') => Some(1usize),
                ('i', 'u') => Some(0usize),
                ('o', 'a') => Some(1usize),
                ('o', 'ă') => Some(1usize),
                ('o', 'e') => Some(1usize),
                ('o', 'i') => Some(0usize),
                ('ô', 'i') => Some(0usize),
                ('ơ', 'i') => Some(0usize),
                ('o', 'o') => Some(0usize),
                ('u', 'a') => Some(0usize),
                ('u', 'â') => Some(1usize),
                ('u', 'ê') => Some(1usize),
                ('u', 'i') => Some(0usize),
                ('u', 'ô') => Some(1usize),
                ('u', 'ơ') => Some(1usize),
                ('u', 'y') => Some(1usize),
                ('ư', 'a') => Some(0usize),
                ('ư', 'i') => Some(0usize),
                ('ư', 'ơ') => Some(1usize),
                ('ư', 'u') => Some(0usize),
                ('y', 'ê') => Some(1usize),
                _ => None,
        }
    } else if n == 3 {
        match (nucleus[0], nucleus[1], nucleus[2]) {
                ('i', 'ê', 'u') => Some(1usize),
                ('y', 'ê', 'u') => Some(1usize),
                ('o', 'a', 'i') => Some(1usize),
                ('o', 'a', 'y') => Some(1usize),
                ('o', 'e', 'o') => Some(1usize),
                ('u', 'â', 'y') => Some(1usize),
                ('u', 'ô', 'i') => Some(1usize),
                ('u', 'y', 'a') => Some(1usize),
                ('u', 'y', 'ê') => Some(2usize),
                ('u', 'y', 'u') => Some(1usize),
                ('ư', 'ơ', 'i') => Some(1usize),
                ('ư', 'ơ', 'u') => Some(1usize),
                _ => None,
        }
    } else {
        None
    }
}

pub fn is_legal_nucleus(nucleus: &[char]) -> (r: bool)
    ensures
        r == (nucleus_target(nucleus@) is Some),
{
    nucleus_tone_target(nucleus).is_some()
}

pub fn is_legal_coda(coda: &[u8]) -> (r: bool)
    ensures
        r == legal_coda(coda@),
{
    let n = coda.len();
    if n == 0 {
        true
    } else if n == 1 {
        let c = coda[0];
        c == ('c' as u8) || c == ('m' as u8) || c == ('n' as u8) || c == ('p' as u8) || c == ('t' as u8)
    } else if n == 2 {
        let a = coda[0];
        let b = coda[1];
        (a == ('c' as u8) && b == ('h' as u8)) || (a == ('n' as u8) && b == ('g' as u8)) || (a == ('n' as u8) && b == ('h' as u8))
    } else {
        false
    }
}

pub fn tone_allowed_for_coda(coda: &[u8], tone: u8) -> (r: bool)
    ensures
        r == tone_allowed(coda@, tone),
{
    let n = coda.len();
    let stop = (n == 1 && (coda[0] == ('c' as u8) || coda[0] == ('p' as u8) || coda[0] == ('t' as u8)))
        || (n == 2 && coda[0] == ('c' as u8) && coda[1] == ('h' as u8));
    !stop || tone == 0 || tone == 1 || tone == 5
}

/// The onset is exactly `qu`.
pub open spec fn is_qu(o: Seq<u8>) -> bool {
    o.len() == 2 && o[0] == ('q' as u8) && o[1] == ('u' as u8)
}

/// The onset is exactly `gi`.
pub open spec fn is_gi(o: Seq<u8>) -> bool {
    o.len() == 2 && o[0] == ('g' as u8) && o[1] == ('i' as u8)
}

pub fn onset_is_qu(onset: &[u8]) -> (r: bool)
    ensures
        r == is_qu(onset@),
{
    onset.len() == 2 && onset[0] == ('q' as u8) && onset[1] == ('u' as u8)
}

pub fn onset_is_gi(onset: &[u8]) -> (r: bool)
    ensures
        r == is_gi(onset@),
{
    onset.len() == 2 && onset[0] == ('g' as u8) && onset[1] == ('i' as u8)
}

} // verus!
