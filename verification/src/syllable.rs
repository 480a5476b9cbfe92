//! Per-key state of the word being composed.

use vstd::prelude::*;
use crate::tone::{char_from_ascii, map_vowel_with_tone, to_upper, toned, upper};

verus! {

/// Most entries a word buffer holds.
pub const SYL_CAPACITY: usize = 24;

/// One kept key of the current word, with the transforms applied to it.
#[derive(Clone, Copy, Debug, PartialEq, Eq, Structural)]
pub struct Syl {
    /// The raw key, lower-cased (`a`, `e`, `d`, `s`, ...).
    pub base: u8,
    /// The tone on this entry (meaningful when `tone_set`).
    pub tone: u8,
    /// Circumflex: â ê ô.
    pub circumflex: bool,
    /// Horn or breve: ă ơ ư, and the bar of đ.
    pub horn: bool,
    /// Typed in upper case.
    pub caps: bool,
    /// Forced literal: no transform applies to this entry any more.
    pub literal: bool,
    /// `tone` has been set (tone 0 then means the tone was removed).
    pub tone_set: bool,
}

impl Syl {
    /// No flag of any kind is set.
    pub open spec fn is_plain(self) -> bool {
        !self.circumflex && !self.horn && !self.caps && !self.literal && !self.tone_set
    }

    /// The letter this entry shows without its tone mark, in lower case.
    pub open spec fn no_tone_char(self) -> char {
        let b = self.base;
        if self.circumflex && b == 97 {
            'â'
        } else if self.circumflex && b == 101 {
            'ê'
        } else if self.circumflex && b == 111 {
            'ô'
        } else if self.horn && b == 97 {
            'ă'
        } else if self.horn && b == 111 {
            'ơ'
        } else if self.horn && (b == 117 || b == 119) {
            'ư'
        } else if self.horn && b == 100 {
            'đ'
        } else {
            b as char
        }
    }

    /// The character this entry shows: its letter, upper-cased when typed in
    /// upper case, carrying its tone when one is set.
    pub open spec fn rendered(self) -> char {
        let c = if self.caps { upper(self.no_tone_char()) } else { self.no_tone_char() };
        if self.tone_set { toned(c, self.tone) } else { c }
    }

    /// A plain entry for the key `b`.
    pub fn literal(b: u8, caps: bool) -> (s: Syl)
        ensures
            s == (Syl { base: b, tone: 0, circumflex: false, horn: false, caps, literal: false, tone_set: false }),
    {
        Syl { base: b, tone: 0, circumflex: false, horn: false, caps, literal: false, tone_set: false }
    }

    /// A plain entry for a key kept as a consonant (a tone key that did not apply).
    pub fn consonant(b: u8, caps: bool) -> (s: Syl)
        ensures
            s == Syl::spec_plain(b, caps),
    {
        Self::literal(b, caps)
    }

    pub open spec fn spec_plain(b: u8, caps: bool) -> Syl {
        Syl { base: b, tone: 0, circumflex: false, horn: false, caps, literal: false, tone_set: false }
    }

    pub fn with_circumflex(self) -> (s: Syl)
        ensures
            s == (Syl { circumflex: true, ..self }),
    {
        Syl { circumflex: true, ..self }
    }

    pub fn with_horn(self) -> (s: Syl)
        ensures
            s == (Syl { horn: true, ..self }),
    {
        Syl { horn: true, ..self }
    }

    /// The same entry with its tone cleared.
    pub fn without_tone(self) -> (s: Syl)
        ensures
            s == (Syl { tone: 0, tone_set: false, ..self }),
    {
        Syl { tone: 0, tone_set: false, ..self }
    }

    /// The same entry carrying the tone `t`.
    pub fn with_tone(self, t: u8) -> (s: Syl)
        ensures
            s == (Syl { tone: t, tone_set: true, ..self }),
    {
        Syl { tone: t, tone_set: true, ..self }
    }

    pub fn base_no_tone(&self) -> (c: char)
        ensures
            c == self.no_tone_char(),
    {
        let b = self.base;
        if self.circumflex && b == 97 {
            'â'
        } else if self.circumflex && b == 101 {
            'ê'
        } else if self.circumflex && b == 111 {
            'ô'
        } else if self.horn && b == 97 {
            'ă'
        } else if self.horn && b == 111 {
            'ơ'
        } else if self.horn && (b == 117 || b == 119) {
            'ư'
        } else if self.horn && b == 100 {
            'đ'
        } else {
            char_from_ascii(b)
        }
    }

    pub fn render(&self) -> (c: char)
        ensures
            c == self.rendered(),
    {
        let base = self.base_no_tone();
        let c = if self.caps { to_upper(base) } else { base };
        if self.tone_set { map_vowel_with_tone(c, self.tone) } else { c }
    }
}

/// The entries of the word being composed, at most `SYL_CAPACITY` of them.
pub struct SylBuf {
    items: Vec<Syl>,
}

impl View for SylBuf {
    type V = Seq<Syl>;

    closed spec fn view(&self) -> Seq<Syl> {
        self.items@
    }
}

impl SylBuf {
    pub open spec fn wf(&self) -> bool {
        self@.len() <= SYL_CAPACITY
    }

    pub fn new() -> (b: SylBuf)
        ensures
            b.wf(),
            b@ == Seq::<Syl>::empty(),
    {
        SylBuf { items: Vec::new() }
    }

    pub fn len(&self) -> (n: usize)
        requires
            self.wf(),
        ensures
            n == self@.len(),
            n <= SYL_CAPACITY,
    {
        self.items.len()
    }

    pub fn is_empty(&self) -> (r: bool)
        ensures
            r == (self@.len() == 0),
    {
        self.items.len() == 0
    }

    pub fn clear(&mut self)
        ensures
            final(self).wf(),
            final(self)@ == Seq::<Syl>::empty(),
    {
        self.items.clear();
    }

    /// Appends `s`; a full buffer drops it.
    pub fn push(&mut self, s: Syl)
        requires
            old(self).wf(),
        ensures
            final(self).wf(),
            old(self)@.len() < SYL_CAPACITY ==> final(self)@ == old(self)@.push(s),
            old(self)@.len() >= SYL_CAPACITY ==> final(self)@ == old(self)@,
    {
        if self.items.len() < SYL_CAPACITY {
            self.items.push(s);
        }
    }

    pub fn pop(&mut self) -> (r: Option<Syl>)
        requires
            old(self).wf(),
        ensures
            final(self).wf(),
            old(self)@.len() == 0 ==> r is None && final(self)@ == old(self)@,
            old(self)@.len() > 0 ==> r == Some(old(self)@.last()) && final(self)@ == old(self)@.drop_last(),
    {
        self.items.pop()
    }

    pub fn get(&self, i: usize) -> (s: Syl)
        requires
            i < self@.len(),
        ensures
            s == self@[i as int],
    {
        self.items[i]
    }

    pub fn set(&mut self, i: usize, s: Syl)
        requires
            old(self).wf(),
            i < old(self)@.len(),
        ensures
            final(self).wf(),
            final(self)@ == old(self)@.update(i as int, s),
    {
        self.items.set(i, s);
    }
}

/// Shape of the onset of the current word.
#[derive(Clone, Copy, Debug, PartialEq, Eq, Structural)]
pub enum OnsetKind {
    Absent,
    Single(u8),
    Digraph(u8, u8),
    Trigraph,
}

/// Number of vowels in the nucleus of the current word.
#[derive(Clone, Copy, Debug, PartialEq, Eq, Structural)]
pub enum NucleusKind {
    Absent,
    Single,
    Diphthong,
    Triphthong,
}

/// Onset/nucleus slots of the current word.
#[derive(Clone, Copy, Debug, PartialEq, Eq, Structural)]
pub struct SylStructure {
    /// Entries `[0, onset_end)` form the onset.
    pub onset_end: usize,
    /// Entries `[onset_end, nucleus_end)` form the nucleus.
    pub nucleus_end: usize,
    pub onset_kind: OnsetKind,
    pub nucleus_kind: NucleusKind,
}

impl SylStructure {
    pub fn new() -> (s: SylStructure)
        ensures
            s == (SylStructure { onset_end: 0, nucleus_end: 0, onset_kind: OnsetKind::Absent, nucleus_kind: NucleusKind::Absent }),
    {
        SylStructure { onset_end: 0, nucleus_end: 0, onset_kind: OnsetKind::Absent, nucleus_kind: NucleusKind::Absent }
    }

    pub fn clear(&mut self)
        ensures
            *final(self) == (SylStructure { onset_end: 0, nucleus_end: 0, onset_kind: OnsetKind::Absent, nucleus_kind: NucleusKind::Absent }),
    {
        *self = SylStructure::new();
    }
}

} // verus!
