//! Incremental stateful Vietnamese input engine.
//!
//! Each keystroke is processed once; the engine keeps per-key state in a
//! `SylBuf` and the raw keys in `raw[..raw_len]`. A word is rendered with its
//! Vietnamese transforms only when its raw onset, resolved nucleus and coda
//! are found in the positive tables of `tables`; otherwise the raw keys are
//! shown as typed (English passthrough).

use vstd::prelude::*;
use crate::rawbuf::{
    raw_buf_as_slice, raw_buf_clear, raw_buf_from_slice, raw_buf_is_empty, raw_buf_is_full, raw_buf_items,
    raw_buf_len, raw_buf_pop, raw_buf_swap, raw_buf_truncate, raw_buf_try_push,
};
use crate::chars::{
    word_boundary_characters,
    ascii_lower, ascii_vowel, char_low_byte, is_ascii_vowel, is_whitespace, is_word_boundary, low_byte, to_ascii_lowercase,
    white_space, word_boundary,
};
use crate::diff::DiffState;
use crate::keystep::{
    all_literal, cancel_horn_step, d_step, d_target, dec, feed_all, feed_key, feed_word, first_toned, fresh_word,
    feed_caps, hat_from, lemma_hat_from, lemma_render_fresh_nonempty, lemma_with_hat, with_hat, modifier_step, no_white_space, plain, process_step, push_caps, push_key,
    render_fresh, replay_caps, replay_from, retone,
    syl_push, tone_step,
    vni_d_step, vni_d_target, vni_mark_step, vni_target, vowel_step, w_step, w_target, Word,
};
use crate::replay::{
    diff_baseline, diff_outputs, last_valid_after, find_split_point, is_raw_passthrough, is_single_consonant_appended, raw_coda_start,
    raw_passthrough, screen_diff, screen_diff_reconstructs, single_consonant_appended, split_point,
};
use crate::text::{chars_equal, copy_chars, extend_chars, string_from_chars};
use crate::modes::{classify, classify_flags, class_flags, key_class, tone_of, InputMethod, KeyClass};
use crate::syllable::{OnsetKind, NucleusKind, Syl, SylBuf, SylStructure, SYL_CAPACITY};
use crate::tables::{
    is_gi, is_legal_coda, is_legal_nucleus, is_legal_onset, is_qu, legal_coda, legal_onset,
    nucleus_target, nucleus_tone_target, onset_is_gi, onset_is_qu, tone_allowed, tone_allowed_for_coda,
};

verus! {

/// Raw keys kept per word.
pub const RAW_CAPACITY: usize = 24;

// ---------------------------------------------------------------------------
// The word model
// ---------------------------------------------------------------------------

/// An entry that belongs to the nucleus: a vowel key, or a `w` turned into ư.
pub open spec fn vowel_entry(m: InputMethod, s: Syl) -> bool {
    key_class(m, s.base) == KeyClass::Vowel || (s.base == 119 && s.horn)
}

/// Index of the first nucleus entry at or after `i` (the length if none).
pub open spec fn next_vowel(m: InputMethod, b: Seq<Syl>, i: int) -> int
    decreases b.len() - i,
{
    if i >= b.len() {
        b.len() as int
    } else if vowel_entry(m, b[i]) {
        i
    } else {
        next_vowel(m, b, i + 1)
    }
}

/// Index of the first non-nucleus entry at or after `i` (the length if none).
pub open spec fn next_non_vowel(m: InputMethod, b: Seq<Syl>, i: int) -> int
    decreases b.len() - i,
{
    if i >= b.len() {
        b.len() as int
    } else if !vowel_entry(m, b[i]) {
        i
    } else {
        next_non_vowel(m, b, i + 1)
    }
}

/// End of the onset: the leading non-vowels, plus the glide `u` of `qu` and
/// the glide `i` of `gi` (the latter only when another vowel follows it and
/// the `g` is not part of `ng`).
pub open spec fn onset_end_of(m: InputMethod, b: Seq<Syl>) -> int {
    let n = b.len() as int;
    let k0 = next_vowel(m, b, 0);
    let k1 = if k0 < n && k0 > 0 && b[k0 - 1].base == 113 && b[k0].base == 117 && b[k0].is_plain() {
        k0 + 1
    } else {
        k0
    };
    if k1 < n && k1 > 0 && b[k1 - 1].base == 103 && (k1 < 2 || b[k1 - 2].base != 110)
        && b[k1].base == 105 && b[k1].is_plain() && k1 + 1 < n && vowel_entry(m, b[k1 + 1]) {
        k1 + 1
    } else {
        k1
    }
}

/// End of the nucleus: the vowels that follow the onset.
pub open spec fn nucleus_end_of(m: InputMethod, b: Seq<Syl>) -> int {
    next_non_vowel(m, b, onset_end_of(m, b))
}

/// The untoned letters of `b[start .. start + len]`.
pub open spec fn letters(b: Seq<Syl>, start: int, len: int) -> Seq<char> {
    Seq::new(len as nat, |i: int| b[start + i].no_tone_char())
}

/// The raw keys of `b[start .. start + len]`.
pub open spec fn bases(b: Seq<Syl>, start: int, len: int) -> Seq<u8> {
    Seq::new(len as nat, |i: int| b[start + i].base)
}

pub open spec fn min_int(a: int, b: int) -> int {
    if a < b { a } else { b }
}

/// The tone of the first entry from `i` on that has one set (0 if none).
pub open spec fn tone_from(b: Seq<Syl>, i: int) -> u8
    decreases b.len() - i,
{
    if i < 0 || i >= b.len() {
        0
    } else if b[i].tone_set {
        b[i].tone
    } else {
        tone_from(b, i + 1)
    }
}

/// Whether the word is (so far) a Vietnamese syllable: an onset-only word
/// needs its raw keys to be a legal onset; otherwise the raw onset, the
/// untoned nucleus (its first three letters) and the coda (its first four
/// keys) must be legal, and the tone must suit the coda.
pub open spec fn valid_word(m: InputMethod, b: Seq<Syl>, raw: Seq<u8>) -> bool {
    let n = b.len() as int;
    let oe = onset_end_of(m, b);
    let ne = nucleus_end_of(m, b);
    if n == 0 {
        true
    } else if oe >= n {
        legal_onset(raw.subrange(0, n))
    } else {
        let coda = bases(b, ne, min_int(n - ne, 4));
        &&& legal_onset(raw.subrange(0, oe))
        &&& nucleus_target(letters(b, oe, min_int(ne - oe, 3))) is Some
        &&& legal_coda(coda)
        &&& tone_allowed(coda, tone_from(b, 0))
    }
}

/// The entry that carries the tone: the table's target within the nucleus
/// (after skipping a leading glide left in the nucleus behind `qu`/`gi`), or
/// the last nucleus vowel when the table has no entry; `None` without a nucleus.
pub open spec fn carrier(m: InputMethod, b: Seq<Syl>, raw: Seq<u8>) -> Option<int> {
    let ns = onset_end_of(m, b);
    let ne = nucleus_end_of(m, b);
    if ns >= ne {
        None
    } else {
        let onset = raw.subrange(0, ns);
        let es = if is_qu(onset) && b[ns].base == 117 && ns + 1 < ne {
            ns + 1
        } else if is_gi(onset) && b[ns].base == 105 && ns + 1 < ne {
            ns + 1
        } else {
            ns
        };
        match nucleus_target(letters(b, es, min_int(ne - es, 3))) {
            Some(t) => Some(es + t),
            None => Some(ne - 1),
        }
    }
}

/// Some entry is forced literal.
pub open spec fn has_literal(b: Seq<Syl>) -> bool {
    exists|i: int| 0 <= i < b.len() && #[trigger] b[i].literal
}

/// Passthrough text of `raw[ri..raw_len]`: each raw key as typed, except that
/// a `dd` pair standing for an đ entry shows as `đ`.
pub open spec fn passthrough_from(b: Seq<Syl>, raw: Seq<u8>, raw_len: int, ri: int, bi: int) -> Seq<char>
    decreases raw_len - ri,
{
    if ri >= raw_len || ri < 0 {
        Seq::empty()
    } else if 0 <= bi < b.len() && b[bi].base == 100 && b[bi].horn && raw[ri] == 100 && ri + 1
        < raw_len && raw[ri + 1] == 100 {
        seq!['đ'] + passthrough_from(b, raw, raw_len, ri + 2, bi + 1)
    } else {
        seq![raw[ri] as char] + passthrough_from(b, raw, raw_len, ri + 1, bi + 1)
    }
}

/// What the composing word shows: nothing for an empty word; the raw keys
/// (see `passthrough_from`) for a forced-literal or non-Vietnamese word; each
/// entry's rendered character otherwise.
pub open spec fn rendered_word(m: InputMethod, b: Seq<Syl>, raw: Seq<u8>, raw_len: int) -> Seq<char> {
    if b.len() == 0 {
        Seq::empty()
    } else if has_literal(b) || !valid_word(m, b, raw) {
        passthrough_from(b, raw, raw_len, 0, 0)
    } else {
        Seq::new(b.len(), |i: int| b[i].rendered())
    }
}


/// Backward scan for the vowel a doubled key (`aa`, `ee`, `oo`) modifies,
/// from entry `i` down: the first unmodified, non-literal entry with the same
/// key, unless it already carries a tone and no consonant lies between
/// (the tone key separated the vowels, as in `reset`). The scan stops at a
/// tone-key entry or at an đ.
pub open spec fn modifier_target_from(m: InputMethod, b: Seq<Syl>, key: u8, i: int, crossed: bool) -> Option<int>
    decreases i + 1,
{
    if i < 0 || i >= b.len() {
        None
    } else {
        let s = b[i];
        if s.base == key && !s.literal && !s.horn {
            if s.tone_set && !crossed {
                None
            } else {
                Some(i)
            }
        } else {
            let c = key_class(m, s.base);
            if c == KeyClass::ToneKey {
                None
            } else if s.base == 100 && s.horn {
                None
            } else {
                modifier_target_from(
                    m,
                    b,
                    key,
                    i - 1,
                    crossed || (c != KeyClass::Vowel && s.base != 119),
                )
            }
        }
    }
}

/// Keys after which `r` forms a consonant cluster (tr, pr, fr, cr, br, dr, gr, kr).
/// The onset/nucleus slots of the word `b`: where the onset and the nucleus
/// end, the onset's letters (one, two, or a three-letter onset), and how many
/// vowels the nucleus has.
pub open spec fn structure_of(m: InputMethod, b: Seq<Syl>) -> SylStructure {
    let oe = onset_end_of(m, b);
    let ne = nucleus_end_of(m, b);
    SylStructure {
        onset_end: oe as usize,
        nucleus_end: ne as usize,
        onset_kind: if oe == 0 {
            OnsetKind::Absent
        } else if oe == 1 {
            OnsetKind::Single(b[0].base)
        } else if oe == 2 {
            OnsetKind::Digraph(b[0].base, b[1].base)
        } else {
            OnsetKind::Trigraph
        },
        nucleus_kind: if ne - oe == 0 {
            NucleusKind::Absent
        } else if ne - oe == 1 {
            NucleusKind::Single
        } else if ne - oe == 2 {
            NucleusKind::Diphthong
        } else {
            NucleusKind::Triphthong
        },
    }
}

/// The raw keys shown as characters, one per key.
pub open spec fn raw_text(raw: Seq<u8>) -> Seq<char> {
    Seq::new(raw.len(), |i: int| raw[i] as char)
}

/// No entry is an đ (a `d` with its bar).
pub open spec fn no_dd_entry(b: Seq<Syl>) -> bool {
    forall|j: int| 0 <= j < b.len() ==> !(#[trigger] b[j]).horn || b[j].base != 100
}

proof fn lemma_passthrough_plain(b: Seq<Syl>, raw: Seq<u8>, raw_len: int, ri: int, bi: int)
    requires
        no_dd_entry(b),
        0 <= ri <= raw_len <= raw.len(),
    ensures
        passthrough_from(b, raw, raw_len, ri, bi) == raw_text(raw.subrange(ri, raw_len)),
    decreases raw_len - ri,
{
    if ri < raw_len {
        lemma_passthrough_plain(b, raw, raw_len, ri + 1, bi + 1);
        if 0 <= bi < b.len() {
            assert(!b[bi].horn || b[bi].base != 100);
        }
        assert(raw_text(raw.subrange(ri, raw_len)) =~= seq![raw[ri] as char] + raw_text(
            raw.subrange(ri + 1, raw_len),
        ));
    } else {
        assert(raw_text(raw.subrange(ri, raw_len)) =~= Seq::<char>::empty());
    }
}

/// What the word `w` renders to under input method `m`.
pub open spec fn render_word(m: InputMethod, w: Word) -> Seq<char> {
    rendered_word(m, w.0, w.1, w.2)
}

pub open spec fn matches_cluster(b: u8) -> bool {
    b == 116 || b == 112 || b == 102 || b == 99 || b == 98 || b == 100 || b == 103 || b == 107
}

fn is_cluster_head(b: u8) -> (r: bool)
    ensures
        r == matches_cluster(b),
{
    b == 116 || b == 112 || b == 102 || b == 99 || b == 98 || b == 100 || b == 103 || b == 107
}

pub proof fn lemma_next_vowel_bounds(m: InputMethod, b: Seq<Syl>, i: int)
    requires
        0 <= i <= b.len(),
    ensures
        i <= next_vowel(m, b, i) <= b.len(),
    decreases b.len() - i,
{
    if i < b.len() && !vowel_entry(m, b[i]) {
        lemma_next_vowel_bounds(m, b, i + 1);
    }
}

pub proof fn lemma_next_non_vowel_bounds(m: InputMethod, b: Seq<Syl>, i: int)
    requires
        0 <= i <= b.len(),
    ensures
        i <= next_non_vowel(m, b, i) <= b.len(),
    decreases b.len() - i,
{
    if i < b.len() && vowel_entry(m, b[i]) {
        lemma_next_non_vowel_bounds(m, b, i + 1);
    }
}

/// The onset never passes the nucleus end, which never passes the word end.
pub proof fn lemma_partition_bounds(m: InputMethod, b: Seq<Syl>)
    ensures
        0 <= onset_end_of(m, b) <= nucleus_end_of(m, b) <= b.len(),
{
    lemma_next_vowel_bounds(m, b, 0);
    let k0 = next_vowel(m, b, 0);
    let oe = onset_end_of(m, b);
    assert(0 <= oe <= b.len());
    lemma_next_non_vowel_bounds(m, b, oe);
}

// ---------------------------------------------------------------------------
// Engine
// ---------------------------------------------------------------------------

/// The Vietnamese input engine: the word being composed and the committed text.
pub struct UltraFastViEngine {
    /// Per-key entries of the composing word.
    buf: SylBuf,
    /// Raw keystroke snapshot: `raw[i]` is the lower-cased i-th key.
    raw: Vec<u8>,
    /// Whether each raw key was typed in upper case.
    raw_caps: Vec<bool>,
    raw_len: usize,
    /// Rendered composing word.
    out_buf: Vec<char>,
    /// Committed text (earlier words and boundary characters).
    committed: Vec<char>,
    input_method: InputMethod,
    enable_quick_start: bool,
    enable_quick_telex: bool,
    enable_modern_orthography: bool,
    /// Onset/nucleus slots of the word as last rendered.
    syl_structure: SylStructure,
    /// Diff-mode state.
    diff: DiffState,
}

impl UltraFastViEngine {
    /// Internal consistency of the buffers.
    pub open spec fn wf(&self) -> bool {
        &&& self.entries().len() <= SYL_CAPACITY
        &&& self.inner_wf()
    }

    pub closed spec fn inner_wf(&self) -> bool {
        &&& self.buf.wf()
        &&& self.raw@.len() == RAW_CAPACITY
        &&& self.raw_caps@.len() == RAW_CAPACITY
        &&& self.raw_len <= RAW_CAPACITY
        &&& self.diff.wf()
    }

    /// The entries of the composing word.
    pub closed spec fn entries(&self) -> Seq<Syl> {
        self.buf@
    }

    /// The whole raw snapshot array.
    pub closed spec fn raw_slots(&self) -> Seq<u8> {
        self.raw@
    }

    /// Whether each raw slot's key was typed in upper case.
    pub closed spec fn caps_slots(&self) -> Seq<bool> {
        self.raw_caps@
    }

    /// The raw keys of the composing word.
    pub closed spec fn raw_keys(&self) -> Seq<u8> {
        self.raw@.subrange(0, self.raw_len as int)
    }

    pub closed spec fn raw_count(&self) -> nat {
        self.raw_len as nat
    }

    /// The composing text as last rendered.
    pub closed spec fn composing(&self) -> Seq<char> {
        self.out_buf@
    }

    /// The committed text.
    pub closed spec fn committed_view(&self) -> Seq<char> {
        self.committed@
    }

    pub closed spec fn method(&self) -> InputMethod {
        self.input_method
    }

    pub closed spec fn quick_start_on(&self) -> bool {
        self.enable_quick_start
    }

    pub closed spec fn quick_telex_on(&self) -> bool {
        self.enable_quick_telex
    }

    pub closed spec fn modern_on(&self) -> bool {
        self.enable_modern_orthography
    }

    pub closed spec fn structure(&self) -> SylStructure {
        self.syl_structure
    }

    /// The word: entries, raw-key snapshot and raw-key count.
    pub open spec fn word(&self) -> Word {
        (self.entries(), self.raw_slots(), self.raw_count() as int)
    }

    /// The whole diff-mode state.
    pub closed spec fn diff_state(&self) -> DiffState {
        self.diff
    }

    /// Raw keystrokes of the word typed in diff mode.
    pub closed spec fn diff_raw(&self) -> Seq<char> {
        raw_buf_items(self.diff.raw_chars)
    }

    /// The composing text on screen in diff mode.
    pub closed spec fn screen(&self) -> Seq<char> {
        self.diff.prev_rendered@
    }

    /// The engine's own last render in diff mode.
    pub closed spec fn inner_screen(&self) -> Seq<char> {
        self.diff.prev_inner_render@
    }

    /// Text committed by V-C-V splits in diff mode.
    pub closed spec fn diff_committed_view(&self) -> Seq<char> {
        self.diff.diff_committed@
    }

    /// The last valid Vietnamese render in diff mode.
    pub closed spec fn last_valid(&self) -> Seq<char> {
        self.diff.last_valid_out@
    }

    /// The raw key count at the last valid render in diff mode.
    pub closed spec fn last_valid_len(&self) -> int {
        self.diff.last_valid_raw_len as int
    }

    /// Where the coda started at the last valid render in diff mode.
    pub closed spec fn last_valid_coda(&self) -> int {
        self.diff.last_valid_coda_start as int
    }

    /// Whether diff mode shows the last valid syllable with the key `ch`
    /// appended instead of the engine's word: the word has turned into raw
    /// text after a valid syllable, `ch` is not a tone key, and `ch` is the
    /// single consonant typed since.
    pub open spec fn optimistic_display(&self, ch: char) -> bool {
        &&& raw_passthrough(self.diff_raw(), self.composing())
        &&& self.last_valid().len() > 0
        &&& key_class(self.method(), low_byte(ch)) != KeyClass::ToneKey
        &&& single_consonant_appended(self.diff_raw(), self.last_valid_len())
    }

    /// The two engines hold the same word, raw keys, texts, syllable
    /// structure and diff state.
    pub open spec fn same_word(&self, other: &Self) -> bool {
        &&& self.entries() == other.entries()
        &&& self.raw_slots() == other.raw_slots()
        &&& self.raw_count() == other.raw_count()
        &&& self.composing() == other.composing()
        &&& self.committed_view() == other.committed_view()
        &&& self.structure() == other.structure()
        &&& self.diff_state() == other.diff_state()
        &&& self.diff_raw() == other.diff_raw()
        &&& self.screen() == other.screen()
        &&& self.inner_screen() == other.inner_screen()
        &&& self.diff_committed_view() == other.diff_committed_view()
        &&& self.last_valid() == other.last_valid()
        &&& self.last_valid_len() == other.last_valid_len()
    }

    /// The two engines hold the same entries, raw keys, committed text,
    /// configuration and diff state (the rendered word may differ).
    pub closed spec fn same_keys(&self, other: &Self) -> bool {
        &&& self.buf == other.buf
        &&& self.raw == other.raw
        &&& self.raw_len == other.raw_len
        &&& self.raw_caps == other.raw_caps
        &&& self.committed == other.committed
        &&& self.input_method == other.input_method
        &&& self.enable_quick_start == other.enable_quick_start
        &&& self.enable_quick_telex == other.enable_quick_telex
        &&& self.enable_modern_orthography == other.enable_modern_orthography
        &&& self.diff == other.diff
    }

    /// A key step: only the entries, the raw length (kept or reduced by one
    /// cancelled key) and the syllable structure may change.
    pub open spec fn key_step(&self, old: &Self) -> bool {
        &&& self.wf()
        &&& self.raw_slots() == old.raw_slots()
        &&& (self.raw_count() == old.raw_count() || self.raw_count() + 1 == old.raw_count())
        &&& self.same_outside_word(old)
    }

    /// Committed text, rendered word, configuration and diff state agree.
    pub closed spec fn same_outside_word(&self, other: &Self) -> bool {
        &&& self.out_buf == other.out_buf
        &&& self.raw_caps == other.raw_caps
        &&& self.committed == other.committed
        &&& self.input_method == other.input_method
        &&& self.enable_quick_start == other.enable_quick_start
        &&& self.enable_quick_telex == other.enable_quick_telex
        &&& self.enable_modern_orthography == other.enable_modern_orthography
        &&& self.diff == other.diff
    }

    /// English passthrough: a word that is not (so far) a Vietnamese
    /// syllable, or that has an entry forced literal, renders as exactly its
    /// raw keys, one character per key (provided it holds no đ from `dd`).
    pub proof fn non_vietnamese_word_shows_raw_keys(&self)
        requires
            self.wf(),
            self.entries().len() > 0,
            has_literal(self.entries()) || !self.valid_spec(),
            no_dd_entry(self.entries()),
        ensures
            self.render_spec() == raw_text(self.raw_keys()),
    {
        lemma_passthrough_plain(self.buf@, self.raw@, self.raw_len as int, 0, 0);
    }

    /// What the composing word renders to in the current state.
    pub open spec fn render_spec(&self) -> Seq<char> {
        rendered_word(self.method(), self.entries(), self.raw_slots(), self.raw_count() as int)
    }

    /// What `backspace` leaves on screen: the word rebuilt from all raw keys
    /// but the last, or nothing when no raw key is held.
    pub open spec fn backspace_render(&self) -> Seq<char> {
        if self.raw_count() > 0 {
            let w = replay_from(
                self.method(),
                self.raw_slots(),
                self.caps_slots(),
                self.raw_count() - 1,
                0,
                (Seq::<Syl>::empty(), self.raw_slots(), 0),
            );
            rendered_word(self.method(), w.0, w.1, w.2)
        } else {
            Seq::empty()
        }
    }

    /// Whether the current word is (so far) a Vietnamese syllable.
    pub open spec fn valid_spec(&self) -> bool {
        valid_word(self.method(), self.entries(), self.raw_slots())
    }

    pub fn new() -> (e: Self)
        ensures
            e.wf(),
            e.entries() == Seq::<Syl>::empty(),
            e.raw_count() == 0,
            e.word() == fresh_word(),
            e.composing() == Seq::<char>::empty(),
            e.committed_view() == Seq::<char>::empty(),
            e.method() == InputMethod::Telex,
            !e.quick_start_on(),
            !e.quick_telex_on(),
            !e.modern_on(),
            e.diff_raw() == Seq::<char>::empty(),
            e.screen() == Seq::<char>::empty(),
            e.inner_screen() == Seq::<char>::empty(),
            e.diff_committed_view() == Seq::<char>::empty(),
            e.structure() == structure_of(e.method(), Seq::<Syl>::empty()),
    {
        let raw: Vec<u8> = vec![0u8; 24];
        let raw_caps: Vec<bool> = vec![false; 24];
        assert(raw@ =~= Seq::new(RAW_CAPACITY as nat, |i: int| 0u8));
        UltraFastViEngine {
            buf: SylBuf::new(),
            raw,
            raw_caps,
            raw_len: 0,
            out_buf: Vec::new(),
            committed: Vec::new(),
            input_method: InputMethod::Telex,
            enable_quick_start: false,
            enable_quick_telex: false,
            enable_modern_orthography: false,
            syl_structure: SylStructure::new(),
            diff: DiffState::new(),
        }
    }

    // ------------------------------------------------------------------
    // Configuration accessors
    // ------------------------------------------------------------------

    pub fn set_quick_start(&mut self, enabled: bool)
        requires
            old(self).wf(),
        ensures
            final(self).quick_start_on() == enabled,
            final(self).wf(),
            final(self).same_word(old(self)),
            final(self).method() == old(self).method(),
            final(self).quick_telex_on() == old(self).quick_telex_on(),
            final(self).modern_on() == old(self).modern_on(),
    {
        self.enable_quick_start = enabled;
    }

    pub fn quick_start(&self) -> (r: bool)
        ensures
            r == self.quick_start_on(),
    {
        self.enable_quick_start
    }

    pub fn set_quick_telex(&mut self, enabled: bool)
        requires
            old(self).wf(),
        ensures
            final(self).quick_telex_on() == enabled,
            final(self).wf(),
            final(self).same_word(old(self)),
            final(self).method() == old(self).method(),
            final(self).quick_start_on() == old(self).quick_start_on(),
            final(self).modern_on() == old(self).modern_on(),
    {
        self.enable_quick_telex = enabled;
    }

    pub fn quick_telex(&self) -> (r: bool)
        ensures
            r == self.quick_telex_on(),
    {
        self.enable_quick_telex
    }

    pub fn set_modern_orthography(&mut self, enabled: bool)
        requires
            old(self).wf(),
        ensures
            final(self).modern_on() == enabled,
            final(self).wf(),
            final(self).same_word(old(self)),
            final(self).method() == old(self).method(),
            final(self).quick_start_on() == old(self).quick_start_on(),
            final(self).quick_telex_on() == old(self).quick_telex_on(),
    {
        self.enable_modern_orthography = enabled;
    }

    pub fn modern_orthography(&self) -> (r: bool)
        ensures
            r == self.modern_on(),
    {
        self.enable_modern_orthography
    }

    pub fn set_input_method(&mut self, method: InputMethod)
        requires
            old(self).wf(),
        ensures
            final(self).method() == method,
            final(self).wf(),
            final(self).same_word(old(self)),
            final(self).quick_start_on() == old(self).quick_start_on(),
            final(self).quick_telex_on() == old(self).quick_telex_on(),
            final(self).modern_on() == old(self).modern_on(),
    {
        self.input_method = method;
    }

    pub fn input_method(&self) -> (r: InputMethod)
        ensures
            r == self.method(),
    {
        self.input_method
    }

    // ------------------------------------------------------------------
    // State queries
    // ------------------------------------------------------------------

    pub fn is_empty(&self) -> (r: bool)
        ensures
            r == (self.entries().len() == 0 && self.committed_view().len() == 0),
    {
        self.buf.is_empty() && self.committed.len() == 0
    }

    pub fn is_composing(&self) -> (r: bool)
        ensures
            r == (self.entries().len() != 0),
    {
        !self.buf.is_empty()
    }

    /// Current logical raw length (may differ from the key count after cancels).
    pub fn raw_len(&self) -> (r: usize)
        ensures
            r == self.raw_count(),
    {
        self.raw_len
    }

    /// The composing word as last rendered.
    pub fn current_composing(&self) -> (s: String)
        ensures
            s@ == self.composing(),
    {
        crate::text::string_from_chars(self.out_buf.as_slice())
    }

    /// The classification flags of a raw key in the current input method.
    pub fn mode_classify(&self, b: u8) -> (f: u8)
        ensures
            f == class_flags(key_class(self.method(), b)),
    {
        classify_flags(self.input_method, b)
    }

    pub fn committed_text(&self) -> (s: String)
        ensures
            s@ == self.committed_view(),
    {
        crate::text::string_from_chars(self.committed.as_slice())
    }

    /// Committed text followed by the composing word.
    pub fn current_output(&self) -> (s: String)
        ensures
            s@ == self.committed_view() + self.composing(),
    {
        let mut all: Vec<char> = Vec::new();
        crate::text::extend_chars(&mut all, self.committed.as_slice());
        crate::text::extend_chars(&mut all, self.out_buf.as_slice());
        crate::text::string_from_chars(all.as_slice())
    }

    /// The syllable structure computed at the last render.
    pub fn syl_structure(&self) -> (s: SylStructure)
        ensures
            s == self.structure(),
    {
        self.syl_structure
    }

    // ------------------------------------------------------------------
    // Syllable partitioning
    // ------------------------------------------------------------------

    /// Whether `s` belongs to the nucleus (a vowel, or `w` turned into ư).
    fn is_vowel_entry(&self, s: &Syl) -> (r: bool)
        ensures
            r == vowel_entry(self.method(), *s),
    {
        classify(self.input_method, s.base) == KeyClass::Vowel || (s.base == 119 && s.horn)
    }

    /// Splits the word into `(onset_end, nucleus_start, nucleus_end, coda_start)`:
    /// `[0, onset_end)` is the onset, `[nucleus_start, nucleus_end)` the
    /// nucleus (`nucleus_start == onset_end`), `[coda_start, len)` the coda
    /// (`coda_start == nucleus_end`).
    fn partition_syllable(&self) -> (r: (usize, usize, usize, usize))
        requires
            self.wf(),
        ensures
            r.0 == onset_end_of(self.method(), self.entries()),
            r.1 == r.0,
            r.2 == nucleus_end_of(self.method(), self.entries()),
            r.3 == r.2,
            r.0 <= r.2 <= self.entries().len(),
    {
        let ghost m = self.method();
        let ghost b = self.entries();
        let n = self.buf.len();
        let mut onset_end: usize = 0;
        while onset_end < n && !self.is_vowel_entry(&self.buf.get(onset_end))
            invariant
                onset_end <= n,
                n == b.len(),
                b == self.entries(),
                m == self.method(),
                next_vowel(m, b, 0) == next_vowel(m, b, onset_end as int),
            decreases n - onset_end,
        {
            onset_end = onset_end + 1;
        }
        assert(onset_end == next_vowel(m, b, 0));
        if onset_end < n && onset_end > 0 && self.buf.get(onset_end - 1).base == 113 {
            let next = self.buf.get(onset_end);
            if next.base == 117 && !next.circumflex && !next.horn && !next.caps && !next.literal
                && !next.tone_set {
                onset_end = onset_end + 1;
            }
        }
        if onset_end < n && onset_end > 0 && self.buf.get(onset_end - 1).base == 103 {
            let prev2: u8 = if onset_end >= 2 { self.buf.get(onset_end - 2).base } else { 0 };
            if prev2 != 110 {
                let next = self.buf.get(onset_end);
                let has_vowel_after_i = onset_end + 1 < n && self.is_vowel_entry(&self.buf.get(onset_end + 1));
                if next.base == 105 && !next.circumflex && !next.horn && !next.caps && !next.literal
                    && !next.tone_set && has_vowel_after_i {
                    onset_end = onset_end + 1;
                }
            }
        }
        assert(onset_end == onset_end_of(m, b));
        let mut nucleus_end = onset_end;
        while nucleus_end < n && self.is_vowel_entry(&self.buf.get(nucleus_end))
            invariant
                onset_end <= nucleus_end <= n,
                n == b.len(),
                b == self.entries(),
                m == self.method(),
                onset_end == onset_end_of(m, b),
                next_non_vowel(m, b, onset_end as int) == next_non_vowel(m, b, nucleus_end as int),
            decreases n - nucleus_end,
        {
            nucleus_end = nucleus_end + 1;
        }
        (onset_end, onset_end, nucleus_end, nucleus_end)
    }

    /// Length of the onset.
    fn onset_len(&self) -> (r: usize)
        requires
            self.wf(),
        ensures
            r == onset_end_of(self.method(), self.entries()),
            r <= self.entries().len(),
    {
        let (onset_end, _, _, _) = self.partition_syllable();
        onset_end
    }

    /// The raw keys `raw[..k]`.
    fn raw_prefix(&self, k: usize) -> (s: &[u8])
        requires
            self.wf(),
            k <= RAW_CAPACITY,
        ensures
            s@ == self.raw_slots().subrange(0, k as int),
    {
        &self.raw.as_slice()[0..k]
    }

    /// Untoned letters of `buf[start .. start + len]`.
    fn nucleus_letters(&self, start: usize, len: usize) -> (v: Vec<char>)
        requires
            self.wf(),
            start + len <= self.entries().len(),
        ensures
            v@ == letters(self.entries(), start as int, len as int),
    {
        let mut v: Vec<char> = Vec::new();
        let mut i: usize = 0;
        while i < len
            invariant
                i <= len,
                self.wf(),
                start + len <= self.entries().len(),
                v@ == letters(self.entries(), start as int, i as int),
            decreases len - i,
        {
            v.push(self.buf.get(start + i).base_no_tone());
            i = i + 1;
            assert(v@ =~= letters(self.entries(), start as int, i as int));
        }
        v
    }

    /// Raw keys of `buf[start .. start + len]`.
    fn entry_bases(&self, start: usize, len: usize) -> (v: Vec<u8>)
        requires
            self.wf(),
            start + len <= self.entries().len(),
        ensures
            v@ == bases(self.entries(), start as int, len as int),
    {
        let mut v: Vec<u8> = Vec::new();
        let mut i: usize = 0;
        while i < len
            invariant
                i <= len,
                self.wf(),
                start + len <= self.entries().len(),
                v@ == bases(self.entries(), start as int, i as int),
            decreases len - i,
        {
            v.push(self.buf.get(start + i).base);
            i = i + 1;
            assert(v@ =~= bases(self.entries(), start as int, i as int));
        }
        v
    }

    // ------------------------------------------------------------------
    // Validation and tone placement
    // ------------------------------------------------------------------

    /// The tone of the first toned entry (0 if none).
    fn word_tone(&self) -> (t: u8)
        requires
            self.wf(),
        ensures
            t == tone_from(self.entries(), 0),
    {
        let n = self.buf.len();
        let mut i: usize = 0;
        while i < n
            invariant
                i <= n,
                n == self.entries().len(),
                tone_from(self.entries(), 0) == tone_from(self.entries(), i as int),
            decreases n - i,
        {
            let s = self.buf.get(i);
            if s.tone_set {
                return s.tone;
            }
            i = i + 1;
        }
        0
    }

    /// Validates the word against the positive syllable tables.
    fn is_valid_vietnamese(&self) -> (r: bool)
        requires
            self.wf(),
        ensures
            r == self.valid_spec(),
    {
        let n = self.buf.len();
        if n == 0 {
            return true;
        }
        let (onset_end, nucleus_start, nucleus_end, coda_start) = self.partition_syllable();
        if nucleus_start >= n {
            return is_legal_onset(self.raw_prefix(n));
        }
        let onset_raw = self.raw_prefix(onset_end);
        let nuc_len = if nucleus_end - nucleus_start < 3 { nucleus_end - nucleus_start } else { 3 };
        let nuc = self.nucleus_letters(nucleus_start, nuc_len);
        let coda_len = n - coda_start;
        let coda_take = if coda_len < 4 { coda_len } else { 4 };
        let coda = self.entry_bases(coda_start, coda_take);
        let tone = self.word_tone();
        if !is_legal_onset(onset_raw) {
            return false;
        }
        if !is_legal_nucleus(nuc.as_slice()) {
            return false;
        }
        if !is_legal_coda(coda.as_slice()) {
            return false;
        }
        if !tone_allowed_for_coda(coda.as_slice(), tone) {
            return false;
        }
        true
    }

    /// The index of the entry that should carry the tone (see `carrier`).
    fn tone_carrier_idx(&self) -> (r: Option<usize>)
        requires
            self.wf(),
        ensures
            match carrier(self.method(), self.entries(), self.raw_slots()) {
                Some(c) => r == Some(c as usize) && 0 <= c < self.entries().len(),
                None => r is None,
            },
    {
        let (onset_end, nucleus_start, nucleus_end, _coda_start) = self.partition_syllable();
        if nucleus_start >= nucleus_end {
            return None;
        }
        let onset_raw = self.raw_prefix(onset_end);
        let eff_start = if onset_is_qu(onset_raw) && self.buf.get(nucleus_start).base == 117
            && nucleus_start + 1 < nucleus_end {
            nucleus_start + 1
        } else if onset_is_gi(onset_raw) && self.buf.get(nucleus_start).base == 105
            && nucleus_start + 1 < nucleus_end {
            nucleus_start + 1
        } else {
            nucleus_start
        };
        let eff_len = if nucleus_end - eff_start < 3 { nucleus_end - eff_start } else { 3 };
        let nuc = self.nucleus_letters(eff_start, eff_len);
        match nucleus_tone_target(nuc.as_slice()) {
            Some(t) => Some(eff_start + t),
            None => Some(nucleus_end - 1),
        }
    }

    /// After the nucleus changed (a modifier or a new vowel), moves an
    /// existing tone from its old entry to the entry `carrier` now names.
    fn reapply_tone_after_nucleus_change(&mut self)
        requires
            old(self).wf(),
        ensures
            final(self).wf(),
            final(self).entries().len() == old(self).entries().len(),
            final(self).raw_slots() == old(self).raw_slots(),
            final(self).raw_count() == old(self).raw_count(),
            final(self).method() == old(self).method(),
            final(self).same_outside_word(old(self)),
            forall|i: int|
                0 <= i < old(self).entries().len() ==> (#[trigger] final(self).entries()[i]).base
                    == old(self).entries()[i].base,
            final(self).entries() == retone(old(self).method(), old(self).entries(), old(self).raw_slots()),
    {
        let (_, nucleus_start, nucleus_end, _) = self.partition_syllable();
        let ghost b = self.entries();
        let mut found: Option<usize> = None;
        let mut i = nucleus_start;
        while i < nucleus_end && found.is_none()
            invariant
                nucleus_start <= i <= nucleus_end <= self.entries().len(),
                self.wf(),
                *self == *old(self),
                b == self.entries(),
                found matches Some(k) ==> k < self.entries().len(),
                found matches Some(k) ==> first_toned(b, nucleus_start as int, nucleus_end as int) == Some(k as int),
                found is None ==> first_toned(b, nucleus_start as int, nucleus_end as int) == first_toned(
                    b,
                    i as int,
                    nucleus_end as int,
                ),
            decreases nucleus_end - i,
        {
            if self.buf.get(i).tone_set {
                found = Some(i);
            }
            i = i + 1;
        }
        if let Some(oc) = found {
            if oc < self.buf.len() {
                let s = self.buf.get(oc);
                let tv = s.tone;
                self.buf.set(oc, s.without_tone());
                if let Some(nc) = self.tone_carrier_idx() {
                    let t = self.buf.get(nc);
                    self.buf.set(nc, t.with_tone(tv));
                }
            }
        }
    }

    /// Search backward for the vowel a doubled key modifies (see `modifier_target_from`).
    fn find_modifier_target_for_double_vowel(&self, b: u8) -> (r: Option<usize>)
        requires
            self.wf(),
        ensures
            match modifier_target_from(self.method(), self.entries(), b, self.entries().len() - 1, false) {
                Some(t) => r == Some(t as usize) && 0 <= t < self.entries().len(),
                None => r is None,
            },
    {
        let ghost m = self.method();
        let ghost bs = self.entries();
        let n = self.buf.len();
        let mut crossed_consonant = false;
        let mut i = n;
        while i > 0
            invariant
                i <= n,
                n == bs.len(),
                bs == self.entries(),
                m == self.method(),
                modifier_target_from(m, bs, b, n - 1, false) == modifier_target_from(
                    m,
                    bs,
                    b,
                    i - 1,
                    crossed_consonant,
                ),
            decreases i,
        {
            let j = i - 1;
            let s = self.buf.get(j);
            if s.base == b && !s.literal && !s.horn {
                if s.tone_set && !crossed_consonant {
                    return None;
                }
                return Some(j);
            }
            let c = classify(self.input_method, s.base);
            if c != KeyClass::Vowel && c != KeyClass::ToneKey && s.base != 119 {
                crossed_consonant = true;
            }
            if c == KeyClass::ToneKey {
                return None;
            }
            if s.base == 100 && s.horn {
                return None;
            }
            i = j;
        }
        None
    }

    /// Marks every entry literal and drops its transforms (passthrough mode).
    fn mark_all_literal(&mut self)
        requires
            old(self).wf(),
        ensures
            final(self).wf(),
            final(self).entries().len() == old(self).entries().len(),
            forall|i: int|
                0 <= i < old(self).entries().len() ==> #[trigger] final(self).entries()[i] == (Syl {
                    base: old(self).entries()[i].base,
                    tone: 0,
                    circumflex: false,
                    horn: false,
                    caps: old(self).entries()[i].caps,
                    literal: true,
                    tone_set: false,
                }),
            final(self).raw_slots() == old(self).raw_slots(),
            final(self).raw_count() == old(self).raw_count(),
            final(self).method() == old(self).method(),
            final(self).same_outside_word(old(self)),
            final(self).entries() == all_literal(old(self).entries()),
    {
        let n = self.buf.len();
        let mut i: usize = 0;
        while i < n
            invariant
                i <= n,
                self.wf(),
                self.same_outside_word(old(self)),
                n == self.entries().len(),
                n == old(self).entries().len(),
                self.raw_slots() == old(self).raw_slots(),
                self.raw_count() == old(self).raw_count(),
                self.method() == old(self).method(),
                forall|j: int|
                    0 <= j < i ==> #[trigger] self.entries()[j] == (Syl {
                        base: old(self).entries()[j].base,
                        tone: 0,
                        circumflex: false,
                        horn: false,
                        caps: old(self).entries()[j].caps,
                        literal: true,
                        tone_set: false,
                    }),
                forall|j: int| i <= j < n ==> #[trigger] self.entries()[j] == old(self).entries()[j],
            decreases n - i,
        {
            let s = self.buf.get(i);
            self.buf.set(
                i,
                Syl {
                    base: s.base,
                    tone: 0,
                    circumflex: false,
                    horn: false,
                    caps: s.caps,
                    literal: true,
                    tone_set: false,
                },
            );
            i = i + 1;
        }
    }

    /// Whether some entry is forced literal.
    fn any_literal(&self) -> (r: bool)
        requires
            self.wf(),
        ensures
            r == has_literal(self.entries()),
    {
        let n = self.buf.len();
        let mut i: usize = 0;
        while i < n
            invariant
                i <= n,
                n == self.entries().len(),
                forall|j: int| 0 <= j < i ==> !(#[trigger] self.entries()[j]).literal,
            decreases n - i,
        {
            if self.buf.get(i).literal {
                return true;
            }
            i = i + 1;
        }
        false
    }

    // ------------------------------------------------------------------
    // Rendering
    // ------------------------------------------------------------------

    /// Rebuilds `out_buf` from the entries: validated Vietnamese renders each
    /// entry, anything else shows the raw keys.
    fn render_out_buf(&mut self)
        requires
            old(self).wf(),
        ensures
            final(self).wf(),
            final(self).same_keys(old(self)),
            final(self).composing() == old(self).render_spec(),
            final(self).structure() == structure_of(old(self).method(), old(self).entries()),
    {
        self.update_syl_structure();
        self.out_buf.clear();
        let n = self.buf.len();
        if n == 0 {
            return;
        }
        if self.any_literal() {
            self.render_passthrough();
            return;
        }
        if !self.is_valid_vietnamese() {
            self.render_passthrough();
            return;
        }
        let mut i: usize = 0;
        while i < n
            invariant
                i <= n,
                self.wf(),
                self.same_keys(old(self)),
                n == self.entries().len(),
                self.composing() == Seq::new(i as nat, |j: int| self.entries()[j].rendered()),
                self.structure() == structure_of(old(self).method(), old(self).entries()),
            decreases n - i,
        {
            let c = self.buf.get(i).render();
            self.out_buf.push(c);
            i = i + 1;
            assert(self.composing() =~= Seq::new(i as nat, |j: int| self.entries()[j].rendered()));
        }
    }

    /// Appends the passthrough text (raw keys, `dd` of an đ entry as `đ`) to
    /// the cleared `out_buf`.
    fn render_passthrough(&mut self)
        requires
            old(self).wf(),
            old(self).composing() == Seq::<char>::empty(),
        ensures
            final(self).wf(),
            final(self).same_keys(old(self)),
            final(self).syl_structure == old(self).syl_structure,
            final(self).composing() == passthrough_from(
                old(self).entries(),
                old(self).raw_slots(),
                old(self).raw_count() as int,
                0,
                0,
            ),
    {
        let ghost b = self.entries();
        let ghost raw = self.raw_slots();
        let ghost rl = self.raw_count() as int;
        let n_buf = self.buf.len();
        let mut buf_idx: usize = 0;
        let mut raw_idx: usize = 0;
        while raw_idx < self.raw_len
            invariant
                self.wf(),
                self.same_keys(old(self)),
                self.syl_structure == old(self).syl_structure,
                b == self.entries(),
                raw == self.raw_slots(),
                rl == self.raw_len,
                n_buf == b.len(),
                raw_idx <= self.raw_len + 1,
                buf_idx <= raw_idx,
                self.composing() + passthrough_from(b, raw, rl, raw_idx as int, buf_idx as int)
                    == passthrough_from(b, raw, rl, 0, 0),
            decreases self.raw_len + 1 - raw_idx,
        {
            let c = self.raw[raw_idx];
            let is_dh = buf_idx < n_buf && self.buf.get(buf_idx).base == 100 && self.buf.get(
                buf_idx,
            ).horn;
            if is_dh && c == 100 && raw_idx + 1 < self.raw_len && self.raw[raw_idx + 1] == 100 {
                proof {
                    assert(self.composing() + seq!['đ'] + passthrough_from(b, raw, rl, raw_idx + 2, buf_idx + 1)
                        =~= self.composing() + passthrough_from(b, raw, rl, raw_idx as int, buf_idx as int));
                }
                self.out_buf.push('đ');
                raw_idx = raw_idx + 2;
                buf_idx = buf_idx + 1;
            } else {
                let ch = crate::tone::char_from_ascii(c);
                proof {
                    assert(self.composing() + seq![ch] + passthrough_from(b, raw, rl, raw_idx + 1, buf_idx + 1)
                        =~= self.composing() + passthrough_from(b, raw, rl, raw_idx as int, buf_idx as int));
                }
                self.out_buf.push(ch);
                raw_idx = raw_idx + 1;
                buf_idx = buf_idx + 1;
            }
        }
        assert(passthrough_from(b, raw, rl, raw_idx as int, buf_idx as int) =~= Seq::<char>::empty());
        assert(self.composing() =~= passthrough_from(b, raw, rl, 0, 0));
    }

    /// Recomputes the syllable structure from the current partition.
    fn update_syl_structure(&mut self)
        requires
            old(self).wf(),
        ensures
            final(self).wf(),
            final(self).same_keys(old(self)),
            final(self).composing() == old(self).composing(),
            final(self).structure().onset_end == onset_end_of(old(self).method(), old(self).entries()),
            final(self).structure().nucleus_end == nucleus_end_of(old(self).method(), old(self).entries()),
            final(self).structure() == structure_of(old(self).method(), old(self).entries()),
    {
        let (onset_end, _nuc_start, nucleus_end, _coda_start) = self.partition_syllable();
        let onset_kind = self.derive_onset_kind(onset_end);
        let nuc_len = nucleus_end - onset_end;
        let nucleus_kind = if nuc_len == 0 {
            NucleusKind::Absent
        } else if nuc_len == 1 {
            NucleusKind::Single
        } else if nuc_len == 2 {
            NucleusKind::Diphthong
        } else {
            NucleusKind::Triphthong
        };
        self.syl_structure = SylStructure { onset_end, nucleus_end, onset_kind, nucleus_kind };
    }

    /// The onset kind of `buf[..onset_end]`.
    fn derive_onset_kind(&self, onset_end: usize) -> (k: OnsetKind)
        requires
            self.wf(),
            onset_end <= self.entries().len(),
        ensures
            onset_end == 0 ==> k == OnsetKind::Absent,
            onset_end == 1 ==> k == OnsetKind::Single(self.entries()[0].base),
            onset_end == 2 ==> k == OnsetKind::Digraph(self.entries()[0].base, self.entries()[1].base),
            onset_end >= 3 ==> k == OnsetKind::Trigraph,
    {
        if onset_end == 0 {
            OnsetKind::Absent
        } else if onset_end == 1 {
            OnsetKind::Single(self.buf.get(0).base)
        } else if onset_end == 2 {
            OnsetKind::Digraph(self.buf.get(0).base, self.buf.get(1).base)
        } else {
            OnsetKind::Trigraph
        }
    }

    /// Whether the `u` at `idx` is the glide of a `qu` onset.
    fn is_u_glide(&self, idx: usize) -> (r: bool)
        requires
            self.wf(),
            idx < self.entries().len(),
        ensures
            r == (idx > 0 && self.entries()[idx - 1].base == 113),
    {
        if idx == 0 {
            return false;
        }
        self.buf.get(idx - 1).base == 113
    }

    /// Whether the `i` at `idx` is the glide of a `gi` onset.
    #[allow(dead_code)]
    fn is_i_glide(&self, idx: usize) -> (r: bool)
        requires
            self.wf(),
        ensures
            ({
                let ol = onset_end_of(self.method(), self.entries());
                r == (idx == ol && ol >= 2 && self.raw_slots()[ol - 2] == 103 && self.raw_slots()[ol - 1] == 105)
            }),
    {
        let onset_len = self.onset_len();
        idx == onset_len && onset_len >= 2 && self.raw[onset_len - 2] == 103 && self.raw[onset_len - 1] == 105
    }

    // ------------------------------------------------------------------
    // Handlers
    // ------------------------------------------------------------------

    /// Drops the last raw key (a cancelled key).
    fn forget_last_raw(&mut self)
        requires
            old(self).wf(),
        ensures
            final(self).key_step(old(self)),
            final(self).entries() == old(self).entries(),
            old(self).raw_count() > 0 ==> final(self).raw_count() + 1 == old(self).raw_count(),
            old(self).raw_count() == 0 ==> final(self).raw_count() == 0,
            final(self).raw_count() == dec(old(self).raw_count() as int),
            final(self).syl_structure == old(self).syl_structure,
    {
        if self.raw_len > 0 {
            self.raw_len = self.raw_len - 1;
        }
    }

    fn handle_consonant(&mut self, b: u8, caps: bool)
        requires
            old(self).wf(),
        ensures
            final(self).key_step(old(self)),
            final(self).raw_count() == old(self).raw_count(),
            old(self).entries().len() < SYL_CAPACITY ==> final(self).entries() == old(self).entries().push(
                Syl::spec_plain(b, caps),
            ),
            final(self).entries() == syl_push(old(self).entries(), plain(b, caps)),
    {
        self.buf.push(Syl::literal(b, caps));
    }

    fn handle_vowel(&mut self, b: u8, caps: bool)
        requires
            old(self).wf(),
        ensures
            final(self).key_step(old(self)),
            ({
                let r = vowel_step(
                    old(self).method(),
                    old(self).entries(),
                    old(self).raw_slots(),
                    old(self).raw_count() as int,
                    b,
                    caps,
                );
                final(self).entries() == r.0 && final(self).raw_count() == r.1
            }),
    {
        if b == 97 || b == 101 || b == 111 {
            if let Some(target_idx) = self.find_modifier_target_for_double_vowel(b) {
                let syl = self.buf.get(target_idx);
                if syl.circumflex {
                    // Third same vowel on a valid word: undo the modifier and
                    // keep both keys literal ("aaa" -> "aa").
                    if self.is_valid_vietnamese() {
                        let reverted = Syl::literal(syl.base, syl.caps);
                        self.buf.set(target_idx, reverted);
                        self.buf.push(Syl::literal(b, caps));
                        self.forget_last_raw();
                        self.mark_all_literal();
                        return;
                    }
                } else {
                    self.buf.set(target_idx, syl.with_circumflex());
                    self.reapply_tone_after_nucleus_change();
                    return;
                }
            }
        }
        self.buf.push(Syl::literal(b, caps));
        self.reapply_tone_after_nucleus_change();
    }

    /// Undoes a horn at `i` because the modifier key came twice: the entry
    /// returns to its plain letter, the doubled key leaves the raw keys, and a
    /// literal `w` is appended.
    fn cancel_horn(&mut self, i: usize, caps: bool)
        requires
            old(self).wf(),
            i < old(self).entries().len(),
        ensures
            final(self).key_step(old(self)),
            final(self).entries().len() >= old(self).entries().len(),
            final(self).entries() == cancel_horn_step(old(self).entries(), i as int, old(self).raw_count() as int, caps).0,
            final(self).raw_count() == cancel_horn_step(old(self).entries(), i as int, old(self).raw_count() as int, caps).1,
    {
        let syl = self.buf.get(i);
        self.buf.set(i, Syl::literal(syl.base, syl.caps));
        self.forget_last_raw();
        self.buf.push(Syl::literal(119, caps));
    }

    /// The entry a Telex `w` acts on (see `w_target`).
    fn find_w_target(&self) -> (r: Option<usize>)
        requires
            self.wf(),
        ensures
            match w_target(self.method(), self.entries(), self.entries().len() - 1) {
                Some(t) => r == Some(t as usize) && 0 <= t < self.entries().len(),
                None => r is None,
            },
    {
        let ghost m = self.method();
        let ghost b = self.entries();
        let n = self.buf.len();
        let mut i = n;
        while i > 0
            invariant
                i <= n,
                self.wf(),
                n == b.len(),
                b == self.entries(),
                m == self.method(),
                w_target(m, b, n - 1) == w_target(m, b, i - 1),
            decreases i,
        {
            let j = i - 1;
            let syl = self.buf.get(j);
            if syl.base == 117 {
                if self.is_u_glide(j) {
                    return None;
                }
                return Some(j);
            } else if syl.base == 111 {
                return Some(j);
            } else if syl.base == 97 {
                if !syl.circumflex {
                    return Some(j);
                }
            } else if syl.base == 119 && syl.horn {
                return Some(j);
            } else if syl.base == 100 {
                return None;
            } else if classify(self.input_method, syl.base) != KeyClass::Vowel {
                return None;
            }
            i = j;
        }
        None
    }

    /// The Telex `w` key (see `w_step`).
    fn handle_telex_w(&mut self, caps: bool)
        requires
            old(self).wf(),
        ensures
            final(self).key_step(old(self)),
            ({
                let r = w_step(
                    old(self).method(),
                    old(self).entries(),
                    old(self).raw_slots(),
                    old(self).raw_count() as int,
                    caps,
                );
                final(self).entries() == r.0 && final(self).raw_count() == r.1
            }),
    {
        let n = self.buf.len();
        match self.find_w_target() {
            Some(j) => {
                let syl = self.buf.get(j);
                if syl.horn {
                    // A second `w` undoes the horn.
                    self.cancel_horn(j, caps);
                    if syl.base == 111 && j > 0 {
                        let prev = self.buf.get(j - 1);
                        if prev.base == 117 && prev.horn {
                            self.buf.set(j - 1, Syl::literal(117, prev.caps));
                        }
                    }
                    self.reapply_tone_after_nucleus_change();
                } else {
                    self.buf.set(j, syl.with_horn());
                    // uo -> ươ: a plain `u` right before the `o` takes the horn too.
                    if syl.base == 111 && j > 0 {
                        let prev = self.buf.get(j - 1);
                        if prev.base == 117 && !prev.circumflex && !prev.horn && !prev.caps && !prev.literal
                            && !prev.tone_set && !self.is_u_glide(j - 1) {
                            self.buf.set(j - 1, prev.with_horn());
                        }
                    }
                    self.reapply_tone_after_nucleus_change();
                }
            },
            None => {
                // No target: at the start of the nucleus `w` is ư, elsewhere a letter.
                let onset_len = self.onset_len();
                if onset_len == n {
                    let syl = Syl::literal(119, caps).with_horn();
                    self.buf.push(syl);
                    self.reapply_tone_after_nucleus_change();
                } else {
                    self.buf.push(Syl::literal(119, caps));
                }
            },
        }
    }

    /// Whether `buf[..i]` holds no vowel and no `w` (so an entry at `i` is in the onset).
    fn all_onset_before(&self, i: usize) -> (r: bool)
        requires
            self.wf(),
            i <= self.entries().len(),
        ensures
            r == (forall|j: int|
                0 <= j < i ==> key_class(self.method(), (#[trigger] self.entries()[j]).base)
                    != KeyClass::Vowel && self.entries()[j].base != 119),
    {
        let mut j: usize = 0;
        while j < i
            invariant
                j <= i,
                i <= self.entries().len(),
                forall|k: int|
                    0 <= k < j ==> key_class(self.method(), (#[trigger] self.entries()[k]).base)
                        != KeyClass::Vowel && self.entries()[k].base != 119,
            decreases i - j,
        {
            let sj = self.buf.get(j);
            if classify(self.input_method, sj.base) == KeyClass::Vowel || sj.base == 119 {
                return false;
            }
            j = j + 1;
        }
        true
    }

    /// The entry a Telex `d` acts on (see `d_target`).
    fn find_d_target(&self) -> (r: Option<usize>)
        requires
            self.wf(),
        ensures
            match d_target(self.entries(), self.entries().len() - 1) {
                Some(t) => r == Some(t as usize) && 0 <= t < self.entries().len(),
                None => r is None,
            },
    {
        let ghost b = self.entries();
        let n = self.buf.len();
        let mut i = n;
        while i > 0
            invariant
                i <= n,
                self.wf(),
                n == b.len(),
                b == self.entries(),
                d_target(b, n - 1) == d_target(b, i - 1),
            decreases i,
        {
            let j = i - 1;
            let s = self.buf.get(j);
            if s.base == 100 && (s.horn || !s.literal) {
                return Some(j);
            }
            i = j;
        }
        None
    }

    /// The Telex `d` key (see `d_step`).
    fn handle_telex_d(&mut self, caps: bool)
        requires
            old(self).wf(),
        ensures
            final(self).key_step(old(self)),
            ({
                let r = d_step(
                    old(self).method(),
                    old(self).entries(),
                    old(self).raw_slots(),
                    old(self).raw_count() as int,
                    caps,
                );
                final(self).entries() == r.0 && final(self).raw_count() == r.1
            }),
    {
        if let Some(j) = self.find_d_target() {
            let s = self.buf.get(j);
            if s.horn {
                // Third `d` after đ on a valid word: back to a literal "dd".
                if self.is_valid_vietnamese() {
                    self.buf.set(j, Syl::literal(100, s.caps));
                    self.buf.push(Syl::literal(100, caps));
                    self.forget_last_raw();
                    self.mark_all_literal();
                    return;
                }
            } else if self.all_onset_before(j) {
                // Only an onset `d` becomes đ.
                self.buf.set(j, Syl { base: 100, tone: 0, horn: true, ..s });
                return;
            }
        }
        self.buf.push(Syl::literal(100, caps));
    }

    /// The entry a VNI mark acts on (see `vni_target`).
    fn find_vni_target(&self, key: u8) -> (r: Option<usize>)
        requires
            self.wf(),
        ensures
            match vni_target(self.method(), self.entries(), key, self.entries().len() - 1) {
                Some(t) => r == Some(t as usize) && 0 <= t < self.entries().len(),
                None => r is None,
            },
    {
        let ghost m = self.method();
        let ghost b = self.entries();
        let n = self.buf.len();
        let mut i = n;
        while i > 0
            invariant
                i <= n,
                self.wf(),
                n == b.len(),
                b == self.entries(),
                m == self.method(),
                vni_target(m, b, key, n - 1) == vni_target(m, b, key, i - 1),
            decreases i,
        {
            let j = i - 1;
            let syl = self.buf.get(j);
            let targeted = if key == 54 {
                syl.base == 97 || syl.base == 101 || syl.base == 111
            } else if key == 55 {
                syl.base == 111 || syl.base == 117
            } else {
                syl.base == 97
            };
            if targeted && !syl.literal {
                return Some(j);
            }
            if classify(self.input_method, syl.base) != KeyClass::Vowel {
                return None;
            }
            i = j;
        }
        None
    }

    /// VNI digit modifiers: `6` circumflex on a/e/o, `7` horn on o/u, `8`
    /// breve on a; a second press undoes it (see `vni_mark_step`).
    fn handle_vni_vowel_mark(&mut self, key: u8)
        requires
            old(self).wf(),
            key == 54 || key == 55 || key == 56,
        ensures
            final(self).key_step(old(self)),
            ({
                let r = vni_mark_step(
                    old(self).method(),
                    old(self).entries(),
                    old(self).raw_slots(),
                    old(self).raw_count() as int,
                    key,
                );
                final(self).entries() == r.0 && final(self).raw_count() == r.1
            }),
    {
        match self.find_vni_target(key) {
            Some(j) => {
                let syl = self.buf.get(j);
                let has = if key == 54 {
                    syl.circumflex
                } else {
                    syl.horn
                };
                if has {
                    self.buf.set(j, Syl::literal(syl.base, syl.caps));
                } else if key == 54 {
                    self.buf.set(j, syl.with_circumflex());
                } else {
                    self.buf.set(j, syl.with_horn());
                }
                self.reapply_tone_after_nucleus_change();
            },
            None => {
                self.buf.push(Syl::literal(key, false));
            },
        }
    }

    fn handle_vni_6(&mut self, _caps: bool)
        requires
            old(self).wf(),
        ensures
            final(self).key_step(old(self)),
            ({
                let r = vni_mark_step(
                    old(self).method(),
                    old(self).entries(),
                    old(self).raw_slots(),
                    old(self).raw_count() as int,
                    54,
                );
                final(self).entries() == r.0 && final(self).raw_count() == r.1
            }),
    {
        self.handle_vni_vowel_mark(54);
    }

    fn handle_vni_7(&mut self, _caps: bool)
        requires
            old(self).wf(),
        ensures
            final(self).key_step(old(self)),
            ({
                let r = vni_mark_step(
                    old(self).method(),
                    old(self).entries(),
                    old(self).raw_slots(),
                    old(self).raw_count() as int,
                    55,
                );
                final(self).entries() == r.0 && final(self).raw_count() == r.1
            }),
    {
        self.handle_vni_vowel_mark(55);
    }

    fn handle_vni_8(&mut self, _caps: bool)
        requires
            old(self).wf(),
        ensures
            final(self).key_step(old(self)),
            ({
                let r = vni_mark_step(
                    old(self).method(),
                    old(self).entries(),
                    old(self).raw_slots(),
                    old(self).raw_count() as int,
                    56,
                );
                final(self).entries() == r.0 && final(self).raw_count() == r.1
            }),
    {
        self.handle_vni_vowel_mark(56);
    }

    /// The `d` a VNI `9` acts on (see `vni_d_target`).
    fn find_vni_d_target(&self) -> (r: Option<usize>)
        requires
            self.wf(),
        ensures
            match vni_d_target(self.method(), self.entries(), self.entries().len() - 1) {
                Some(t) => r == Some(t as usize) && 0 <= t < self.entries().len(),
                None => r is None,
            },
    {
        let ghost m = self.method();
        let ghost b = self.entries();
        let n = self.buf.len();
        let mut i = n;
        while i > 0
            invariant
                i <= n,
                self.wf(),
                n == b.len(),
                b == self.entries(),
                m == self.method(),
                vni_d_target(m, b, n - 1) == vni_d_target(m, b, i - 1),
            decreases i,
        {
            let j = i - 1;
            let syl = self.buf.get(j);
            if syl.base == 100 && !syl.literal {
                return Some(j);
            }
            if classify(self.input_method, syl.base) != KeyClass::Vowel {
                return None;
            }
            i = j;
        }
        None
    }

    /// The VNI `9` key: toggles the bar of its `d` (see `vni_d_step`).
    fn handle_vni_9(&mut self, _caps: bool)
        requires
            old(self).wf(),
        ensures
            final(self).key_step(old(self)),
            ({
                let r = vni_d_step(old(self).method(), old(self).entries(), old(self).raw_count() as int);
                final(self).entries() == r.0 && final(self).raw_count() == r.1
            }),
    {
        match self.find_vni_d_target() {
            Some(j) => {
                let syl = self.buf.get(j);
                if syl.horn {
                    self.buf.set(j, Syl::literal(syl.base, syl.caps));
                } else {
                    self.buf.set(j, Syl { base: 100, tone: 0, horn: true, ..syl });
                }
            },
            None => {
                self.buf.push(Syl::literal(57, false));
            },
        }
    }

    fn handle_modifier(&mut self, b: u8, caps: bool)
        requires
            old(self).wf(),
        ensures
            final(self).key_step(old(self)),
            ({
                let r = modifier_step(
                    old(self).method(),
                    old(self).entries(),
                    old(self).raw_slots(),
                    old(self).raw_count() as int,
                    b,
                    caps,
                );
                final(self).entries() == r.0 && final(self).raw_count() == r.1
            }),
    {
        if b == 119 {
            self.handle_telex_w(caps);
        } else if b == 100 {
            self.handle_telex_d(caps);
        } else if b == 54 {
            self.handle_vni_6(caps);
        } else if b == 55 {
            self.handle_vni_7(caps);
        } else if b == 56 {
            self.handle_vni_8(caps);
        } else if b == 57 {
            self.handle_vni_9(caps);
        } else {
            self.buf.push(Syl::literal(b, caps));
        }
    }

    /// Whether some entry is an đ.
    fn has_modified_consonant(&self) -> (r: bool)
        requires
            self.wf(),
        ensures
            r == (exists|i: int|
                0 <= i < self.entries().len() && (#[trigger] self.entries()[i]).base == 100
                    && self.entries()[i].horn),
    {
        let n = self.buf.len();
        let mut i: usize = 0;
        while i < n
            invariant
                i <= n,
                n == self.entries().len(),
                forall|j: int|
                    0 <= j < i ==> !((#[trigger] self.entries()[j]).base == 100 && self.entries()[j].horn),
            decreases n - i,
        {
            let s = self.buf.get(i);
            if s.base == 100 && s.horn {
                return true;
            }
            i = i + 1;
        }
        false
    }

    /// The last entry that is a plain `e` right after a plain `i` or `y`.
    fn find_hat_target(&self) -> (r: Option<usize>)
        requires
            self.wf(),
            self.entries().len() > 0,
        ensures
            r matches Some(j) ==> hat_from(self.entries(), self.entries().len() - 1) == Some(j as int),
            r is None ==> hat_from(self.entries(), self.entries().len() - 1) is None,
    {
        let ghost b = self.entries();
        let mut j: usize = self.buf.len() - 1;
        while j >= 1
            invariant
                b == self.entries(),
                j < b.len(),
                hat_from(b, b.len() - 1) == hat_from(b, j as int),
            decreases j,
        {
            let s = self.buf.get(j);
            let p = self.buf.get(j - 1);
            if s.base == 101 && !s.circumflex && !s.horn && !s.literal && (p.base == 105 || p.base == 121)
                && !p.literal {
                return Some(j);
            }
            j = j - 1;
        }
        None
    }

    /// Gives an `e` typed after `i` or `y` its circumflex when the word is
    /// then Vietnamese (`with_hat`).
    fn apply_hat(&mut self)
        requires
            old(self).wf(),
            old(self).entries().len() > 0,
        ensures
            final(self).key_step(old(self)),
            final(self).entries() == with_hat(old(self).method(), old(self).entries(), old(self).raw_slots()),
            final(self).raw_count() == old(self).raw_count(),
            final(self).structure() == old(self).structure(),
    {
        proof {
            lemma_hat_from(self.entries(), self.entries().len() - 1);
            reveal(with_hat);
        }
        match self.find_hat_target() {
            Some(j) => {
                let ghost b = self.entries();
                let s = self.buf.get(j);
                self.buf.set(j, s.with_circumflex());
                if !self.is_valid_vietnamese() {
                    self.buf.set(j, s);
                    assert(self.entries() =~= b);
                }
            },
            None => {},
        }
    }

    #[verifier::rlimit(100)]
    #[verifier::spinoff_prover]
    fn handle_tone_key(&mut self, b: u8, caps: bool)
        requires
            old(self).wf(),
        ensures
            final(self).key_step(old(self)),
            ({
                let r = tone_step(
                    old(self).method(),
                    old(self).entries(),
                    old(self).raw_slots(),
                    old(self).raw_count() as int,
                    b,
                    caps,
                );
                final(self).entries() == r.0 && final(self).raw_count() == r.1
            }),
            old(self).entries().len() == 0 ==> final(self).entries() == seq![Syl::spec_plain(b, caps)],
            old(self).entries().len() > 0 && !valid_word(
                old(self).method(),
                with_hat(old(self).method(), old(self).entries(), old(self).raw_slots()),
                old(self).raw_slots(),
            ) && !(b == 114 && matches_cluster(old(self).entries().last().base)) ==> final(self).entries()
                == old(self).entries().push(Syl::spec_plain(b, caps)) || old(self).entries().len() == SYL_CAPACITY,
    {
        let tone_val = tone_of(self.input_method, b);
        let n = self.buf.len();
        if n == 0 {
            self.buf.push(Syl::literal(b, caps));
            return;
        }
        // `r` after t, p, f, c, b, d, g, k forms a consonant cluster.
        if b == 114 && is_cluster_head(self.buf.get(n - 1).base) {
            self.buf.push(Syl::literal(114, caps));
            return;
        }
        // An `e` typed after `i` or `y` without its circumflex takes it.
        let ghost hb = with_hat(self.method(), self.entries(), self.raw_slots());
        proof {
            lemma_with_hat(self.method(), self.entries(), self.raw_slots());
        }
        self.apply_hat();
        assert(self.entries() == hb);
        assert(self.raw_slots() == old(self).raw_slots());
        assert(self.raw_count() == old(self).raw_count());
        assert(self.method() == old(self).method());
        assert(hb == (if old(self).entries().len() == 0 || (b == 114 && matches_cluster(
            old(self).entries().last().base,
        )) {
            old(self).entries()
        } else {
            with_hat(old(self).method(), old(self).entries(), old(self).raw_slots())
        }));
        // A word already out of Vietnamese takes tone keys as plain letters.
        if !self.is_valid_vietnamese() {
            self.buf.push(Syl::consonant(b, caps));
            return;
        }
        let carrier = self.tone_carrier_idx();
        match carrier {
            None => {
                let (_, ns, ne, _) = self.partition_syllable();
                if ne <= ns && self.has_modified_consonant() {
                    // A tone key on an onset-only đ word is swallowed.
                    self.forget_last_raw();
                    return;
                }
                self.buf.push(Syl::literal(b, caps));
            },
            Some(carrier_idx) => {
                let existing = self.buf.get(carrier_idx);
                if existing.tone_set && existing.tone == tone_val && !existing.literal {
                    // Same tone key twice: remove the tone; the second key
                    // leaves the raw keys and the first stays as a letter.
                    self.buf.set(carrier_idx, existing.without_tone());
                    self.forget_last_raw();
                    self.buf.push(Syl::consonant(b, caps));
                    return;
                }
                // The last tone key wins.
                self.buf.set(carrier_idx, existing.with_tone(tone_val));
            },
        }
    }

    /// Classifies one raw key and hands it to its handler.
    fn process_key(&mut self, b: u8, caps: bool)
        requires
            old(self).wf(),
        ensures
            final(self).key_step(old(self)),
            ({
                let r = process_step(
                    old(self).method(),
                    old(self).entries(),
                    old(self).raw_slots(),
                    old(self).raw_count() as int,
                    b,
                    caps,
                );
                final(self).entries() == r.0 && final(self).raw_count() == r.1
            }),
    {
        match classify(self.input_method, b) {
            KeyClass::ToneKey => self.handle_tone_key(b, caps),
            KeyClass::Modifier => self.handle_modifier(b, caps),
            KeyClass::Vowel => self.handle_vowel(b, caps),
            KeyClass::Other => self.handle_consonant(b, caps),
        }
    }

    /// Records one raw key and processes it; a full raw snapshot drops the key.
    fn push_raw_key(&mut self, b: u8, caps: bool)
        requires
            old(self).wf(),
        ensures
            final(self).wf(),
            final(self).committed_view() == old(self).committed_view(),
            final(self).method() == old(self).method(),
            final(self).quick_start_on() == old(self).quick_start_on(),
            final(self).quick_telex_on() == old(self).quick_telex_on(),
            final(self).modern_on() == old(self).modern_on(),
            final(self).diff_state() == old(self).diff_state(),
            old(self).raw_count() >= RAW_CAPACITY ==> final(self).raw_count() == old(self).raw_count()
                && final(self).entries() == old(self).entries()
                && final(self).raw_slots() == old(self).raw_slots(),
            old(self).raw_count() < RAW_CAPACITY ==> {
                &&& final(self).raw_slots() == old(self).raw_slots().update(old(self).raw_count() as int, b)
                &&& (final(self).raw_count() == old(self).raw_count() + 1 || final(self).raw_count() == old(self).raw_count())
            },
            final(self).word() == push_key(old(self).method(), old(self).word(), b, caps),
            final(self).caps_slots() == push_caps(old(self).word(), old(self).caps_slots(), caps),
    {
        if self.raw_len >= RAW_CAPACITY {
            return;
        }
        let i = self.raw_len;
        self.raw.set(i, b);
        self.raw_caps.set(i, caps);
        self.raw_len = i + 1;
        self.process_key(b, caps);
    }

    // ------------------------------------------------------------------
    // Core feed method
    // ------------------------------------------------------------------

    /// Feed one character and return the composing word (not the committed
    /// text). Whitespace commits the word, then itself, to the committed text.
    pub fn feed(&mut self, key: char) -> (out: String)
        requires
            old(self).wf(),
        ensures
            final(self).wf(),
            out@ == final(self).composing(),
            final(self).method() == old(self).method(),
            final(self).quick_start_on() == old(self).quick_start_on(),
            final(self).quick_telex_on() == old(self).quick_telex_on(),
            final(self).modern_on() == old(self).modern_on(),
            final(self).diff_state() == old(self).diff_state(),
            final(self).word() == feed_word(
                old(self).method(),
                old(self).quick_start_on(),
                old(self).quick_telex_on(),
                old(self).word(),
                key,
            ),
            final(self).caps_slots() == feed_caps(
                old(self).method(),
                old(self).quick_start_on(),
                old(self).quick_telex_on(),
                old(self).word(),
                old(self).caps_slots(),
                key,
            ),
            white_space(key) ==> {
                &&& final(self).committed_view() == old(self).committed_view() + old(self).render_spec().push(key)
                &&& final(self).entries() == Seq::<Syl>::empty()
                &&& final(self).raw_count() == 0
                &&& final(self).composing() == Seq::<char>::empty()
            },
            !white_space(key) ==> {
                &&& final(self).committed_view() == old(self).committed_view()
                &&& final(self).composing() == final(self).render_spec()
                &&& final(self).structure() == structure_of(final(self).method(), final(self).entries())
                &&& final(self).word() == feed_key(
                    old(self).method(),
                    old(self).quick_start_on(),
                    old(self).quick_telex_on(),
                    old(self).word(),
                    key,
                )
            },
            !white_space(key) && !old(self).quick_start_on() && (!old(self).quick_telex_on() || old(self).raw_count() == 0)
                && old(self).raw_count() < RAW_CAPACITY ==> {
                &&& final(self).raw_slots() == old(self).raw_slots().update(
                    old(self).raw_count() as int,
                    low_byte(ascii_lower(key)),
                )
                &&& (final(self).raw_count() == old(self).raw_count() + 1 || final(self).raw_count() == old(self).raw_count())
            },
    {
        if is_whitespace(key) {
            self.render_out_buf();
            crate::text::extend_chars(&mut self.committed, self.out_buf.as_slice());
            self.buf.clear();
            self.raw_len = 0;
            self.out_buf.clear();
            self.committed.push(key);
            return crate::text::string_from_chars(self.out_buf.as_slice());
        }
        let lower = to_ascii_lowercase(key);
        let caps = key != lower;
        let lb = char_low_byte(lower);
        if self.enable_quick_start {
            if lower == 'j' {
                self.push_raw_key(103, false);
                self.push_raw_key(105, false);
            } else if lower == 'f' {
                self.push_raw_key(112, false);
                self.push_raw_key(104, false);
            } else if lower == 'w' {
                self.push_raw_key(113, false);
                self.push_raw_key(117, false);
            } else {
                self.push_raw_key(lb, caps);
            }
        } else if self.enable_quick_telex && self.raw_len > 0 {
            // Quick-telex: a doubled consonant expands to its digraph.
            let prev = self.raw[self.raw_len - 1];
            let expansion: Option<(u8, u8)> = if lower == 'c' {
                Some((99, 104))
            } else if lower == 'g' {
                Some((103, 105))
            } else if lower == 'k' {
                Some((107, 104))
            } else if lower == 'n' {
                Some((110, 103))
            } else if lower == 'q' {
                Some((113, 117))
            } else if lower == 'p' {
                Some((112, 104))
            } else if lower == 't' {
                Some((116, 104))
            } else {
                None
            };
            match expansion {
                Some((first, second)) => {
                    if prev == lb {
                        self.raw_len = self.raw_len - 1;
                        self.buf.pop();
                        self.push_raw_key(first, false);
                        self.push_raw_key(second, false);
                    } else {
                        self.push_raw_key(lb, caps);
                    }
                },
                None => {
                    self.push_raw_key(lb, caps);
                },
            }
        } else {
            self.push_raw_key(lb, caps);
        }
        self.render_out_buf();
        crate::text::string_from_chars(self.out_buf.as_slice())
    }

    /// Deletes the last typed key and returns the new composing word. The
    /// word is rebuilt by replaying the remaining raw keys, each in the case
    /// it was typed in. With no raw key
    /// left, the last committed character is deleted instead.
    pub fn backspace(&mut self) -> (out: String)
        requires
            old(self).wf(),
        ensures
            final(self).wf(),
            out@ == final(self).composing(),
            out@ == old(self).backspace_render(),
            final(self).method() == old(self).method(),
            final(self).quick_start_on() == old(self).quick_start_on(),
            final(self).quick_telex_on() == old(self).quick_telex_on(),
            final(self).modern_on() == old(self).modern_on(),
            final(self).diff_state() == old(self).diff_state(),
            final(self).word() == backspace_word(*old(self)),
            final(self).caps_slots() == backspace_caps(*old(self)),
            final(self).committed_view() == backspace_committed(*old(self)),
            old(self).raw_count() > 0 ==> {
                &&& final(self).raw_count() < old(self).raw_count()
                &&& final(self).committed_view() == old(self).committed_view()
                &&& final(self).composing() == final(self).render_spec()
                &&& final(self).word() == replay_from(
                    old(self).method(),
                    old(self).raw_slots(),
                    old(self).caps_slots(),
                    old(self).raw_count() - 1,
                    0,
                    (Seq::<Syl>::empty(), old(self).raw_slots(), 0),
                )
            },
            old(self).raw_count() == 0 ==> {
                &&& final(self).composing() == Seq::<char>::empty()
                &&& final(self).raw_count() == 0
                &&& final(self).entries() == old(self).entries()
                &&& final(self).raw_slots() == old(self).raw_slots()
                &&& old(self).committed_view().len() > 0 ==> final(self).committed_view()
                    == old(self).committed_view().drop_last()
                &&& old(self).committed_view().len() == 0 ==> final(self).committed_view()
                    == old(self).committed_view()
            },
    {
        if self.raw_len > 0 {
            self.raw_len = self.raw_len - 1;
            let target_len = self.raw_len;
            self.buf.clear();
            self.raw_len = 0;
            let mut i: usize = 0;
            while i < target_len
                invariant
                    self.wf(),
                    i <= target_len,
                    target_len < RAW_CAPACITY,
                    self.raw_len <= i,
                    self.committed_view() == old(self).committed_view(),
                    self.method() == old(self).method(),
                    self.quick_start_on() == old(self).quick_start_on(),
                    self.quick_telex_on() == old(self).quick_telex_on(),
                    self.modern_on() == old(self).modern_on(),
                    self.diff_state() == old(self).diff_state(),
                    target_len + 1 == old(self).raw_count(),
                    forall|j: int| i <= j < RAW_CAPACITY ==> self.raw_slots()[j] == old(self).raw_slots()[j],
                    forall|j: int| i <= j < RAW_CAPACITY ==> self.caps_slots()[j] == old(self).caps_slots()[j],
                    replay_caps(
                        old(self).method(),
                        old(self).raw_slots(),
                        old(self).caps_slots(),
                        target_len as int,
                        0,
                        (Seq::<Syl>::empty(), old(self).raw_slots(), 0),
                        old(self).caps_slots(),
                    ) == replay_caps(
                        old(self).method(),
                        old(self).raw_slots(),
                        old(self).caps_slots(),
                        target_len as int,
                        i as int,
                        self.word(),
                        self.caps_slots(),
                    ),
                    replay_from(
                        old(self).method(),
                        old(self).raw_slots(),
                        old(self).caps_slots(),
                        target_len as int,
                        0,
                        (Seq::<Syl>::empty(), old(self).raw_slots(), 0),
                    ) == replay_from(
                        old(self).method(),
                        old(self).raw_slots(),
                        old(self).caps_slots(),
                        target_len as int,
                        i as int,
                        self.word(),
                    ),
                decreases target_len - i,
            {
                let b = self.raw[i];
                let c = self.raw_caps[i];
                let k = self.raw_len;
                self.raw.set(k, b);
                self.raw_caps.set(k, c);
                self.raw_len = k + 1;
                self.process_key(b, c);
                i = i + 1;
            }
            self.render_out_buf();
            return crate::text::string_from_chars(self.out_buf.as_slice());
        }
        if self.committed.len() > 0 {
            self.committed.pop();
        }
        self.out_buf.clear();
        crate::text::string_from_chars(self.out_buf.as_slice())
    }

    /// Moves the rendered composing word to the committed text and starts a new word.
    pub fn commit(&mut self)
        requires
            old(self).wf(),
        ensures
            final(self).wf(),
            final(self).committed_view() == old(self).committed_view() + old(self).render_spec(),
            final(self).entries() == Seq::<Syl>::empty(),
            final(self).raw_count() == 0,
            final(self).raw_slots() == old(self).raw_slots(),
            final(self).composing() == Seq::<char>::empty(),
            final(self).method() == old(self).method(),
            final(self).diff_state() == old(self).diff_state(),
    {
        self.render_out_buf();
        crate::text::extend_chars(&mut self.committed, self.out_buf.as_slice());
        self.buf.clear();
        self.raw_len = 0;
        self.out_buf.clear();
    }

    /// Forgets the composing word and the committed text.
    pub fn clear(&mut self)
        requires
            old(self).wf(),
        ensures
            final(self).wf(),
            final(self).entries() == Seq::<Syl>::empty(),
            final(self).raw_count() == 0,
            final(self).composing() == Seq::<char>::empty(),
            final(self).committed_view() == Seq::<char>::empty(),
            final(self).method() == old(self).method(),
            final(self).quick_start_on() == old(self).quick_start_on(),
            final(self).quick_telex_on() == old(self).quick_telex_on(),
            final(self).modern_on() == old(self).modern_on(),
            final(self).structure() == structure_of(final(self).method(), Seq::<Syl>::empty()),
            final(self).raw_slots() == old(self).raw_slots(),
            final(self).diff_state() == old(self).diff_state(),
    {
        self.buf.clear();
        self.raw_len = 0;
        self.out_buf.clear();
        self.committed.clear();
        self.syl_structure.clear();
    }

    // ------------------------------------------------------------------
    // Diff mode
    // ------------------------------------------------------------------

    /// Whether `ch` (cut to its low byte) is a tone key of `method`.
    fn is_tone_key_in_mode(ch: char, method: InputMethod) -> (r: bool)
        ensures
            r == (key_class(method, low_byte(ch)) == KeyClass::ToneKey),
    {
        let f = classify_flags(method, char_low_byte(ch));
        let t: u8 = f & crate::modes::IS_TONE_KEY;
        proof {
            assert(f == 0 || f == 1 || f == 2 || f == 4);
            assert((f == 0u8 || f == 1u8 || f == 2u8 || f == 4u8) ==> ((f & 4u8 != 0u8) == (f == 4u8)))
                by (bit_vector);
        }
        t != 0
    }

    /// Renders `raw` through a fresh engine of the given input method.
    pub fn rerender_chars(raw: &[char], method: InputMethod) -> (out: Vec<char>)
        ensures
            out@ == render_fresh(method, raw@),
    {
        let mut eng = UltraFastViEngine::new();
        eng.set_input_method(method);
        let mut i: usize = 0;
        while i < raw.len()
            invariant
                eng.wf(),
                i <= raw@.len(),
                eng.method() == method,
                !eng.quick_start_on(),
                !eng.quick_telex_on(),
                eng.word() == feed_all(method, false, false, fresh_word(), raw@.subrange(0, i as int)),
                eng.composing() == eng.render_spec(),
            decreases raw@.len() - i,
        {
            eng.feed(raw[i]);
            i = i + 1;
            assert(raw@.subrange(0, i as int).drop_last() =~= raw@.subrange(0, i - 1));
        }
        assert(raw@.subrange(0, raw@.len() as int) =~= raw@);
        eng.composing_chars()
    }

    /// Starts the word afresh (the raw snapshot is kept) and types `keys`.
    #[verifier::rlimit(100)]
    #[verifier::spinoff_prover]
    pub(crate) fn restart_word(&mut self, keys: &[char])
        requires
            old(self).wf(),
            no_white_space(keys@),
        ensures
            final(self).wf(),
            final(self).committed_view() == old(self).committed_view(),
            final(self).method() == old(self).method(),
            final(self).quick_start_on() == old(self).quick_start_on(),
            final(self).quick_telex_on() == old(self).quick_telex_on(),
            final(self).modern_on() == old(self).modern_on(),
            final(self).diff_state() == old(self).diff_state(),
            final(self).word() == feed_all(
                old(self).method(),
                old(self).quick_start_on(),
                old(self).quick_telex_on(),
                (Seq::<Syl>::empty(), old(self).raw_slots(), 0),
                keys@,
            ),
            final(self).composing() == final(self).render_spec(),
    {
        self.buf.clear();
        self.raw_len = 0;
        self.out_buf.clear();
        let mut i: usize = 0;
        while i < keys.len()
            invariant
                self.wf(),
                i <= keys@.len(),
                self.input_method == old(self).input_method,
                self.enable_quick_start == old(self).enable_quick_start,
                self.enable_quick_telex == old(self).enable_quick_telex,
                self.enable_modern_orthography == old(self).enable_modern_orthography,
                self.diff == old(self).diff,
                self.committed_view() == old(self).committed_view(),
                no_white_space(keys@),
                self.word() == feed_all(
                    old(self).input_method,
                    old(self).enable_quick_start,
                    old(self).enable_quick_telex,
                    (Seq::<Syl>::empty(), old(self).raw@, 0),
                    keys@.subrange(0, i as int),
                ),
                self.composing() == self.render_spec(),
            decreases keys@.len() - i,
        {
            assert(!white_space(keys@[i as int]));
            self.feed(keys[i]);
            i = i + 1;
            assert(keys@.subrange(0, i as int).drop_last() =~= keys@.subrange(0, i - 1));
        }
        assert(keys@.subrange(0, keys@.len() as int) =~= keys@);
    }

    /// Diff mode with 24 raw keys held: the word goes to the V-C-V committed
    /// text and a new word starts with `ch`.
    fn feed_diff_full(&mut self, ch: char) -> (r: (usize, String))
        requires
            old(self).wf(),
            old(self).diff_raw().len() >= RAW_CAPACITY,
            !word_boundary(ch),
        ensures
            feed_diff_done(*old(self), *final(self), ch, r.0, r.1@),
    {
        self.render_out_buf();
        extend_chars(&mut self.diff.diff_committed, self.out_buf.as_slice());
        let screen_before_len = self.diff.prev_rendered.len();
        self.buf.clear();
        self.raw_len = 0;
        self.out_buf.clear();
        raw_buf_clear(&mut self.diff.raw_chars);
        self.diff.prev_inner_render.clear();
        self.diff.last_valid_raw_len = 0;
        self.diff.last_valid_coda_start = 0;
        self.diff.last_valid_out.clear();
        raw_buf_try_push(&mut self.diff.raw_chars, ch);
        self.feed(ch);
        let new_composed = self.composing_chars();
        self.diff.diff_suffix = copy_chars(new_composed.as_slice());
        self.diff.prev_rendered = copy_chars(new_composed.as_slice());
        self.diff.prev_inner_render = new_composed;
        proof {
            assert(raw_buf_items(self.diff.raw_chars) =~= seq![ch]);
        }
        (screen_before_len, string_from_chars(self.diff.diff_suffix.as_slice()))
    }

    /// Diff mode, first step for a key: records `ch`, types it into the
    /// engine and, when it cancelled itself with the key before it, drops
    /// that key from the diff raw keys too. Returns the engine's word.
    fn feed_diff_key(&mut self, ch: char) -> (new_composed: Vec<char>)
        requires
            old(self).wf(),
            old(self).diff_raw().len() < RAW_CAPACITY,
            !word_boundary(ch),
        ensures
            final(self).wf(),
            final(self).input_method == old(self).input_method,
            final(self).enable_quick_start == old(self).enable_quick_start,
            final(self).enable_quick_telex == old(self).enable_quick_telex,
            final(self).enable_modern_orthography == old(self).enable_modern_orthography,
            final(self).diff_raw() == diff_keys(*old(self), ch),
            final(self).entries() == typed_word(*old(self), ch).0,
            final(self).raw_slots() == typed_word(*old(self), ch).1,
            final(self).composing() == render_word(old(self).method(), typed_word(*old(self), ch)),
            final(self).raw_count() == (if diff_cancelled(*old(self), ch) && old(self).diff_raw().len() > 0 {
                old(self).diff_raw().len() as int
            } else {
                typed_word(*old(self), ch).2
            }),
            final(self).committed_view() == old(self).committed_view(),
            new_composed@ == final(self).composing(),
            final(self).diff.prev_rendered == old(self).diff.prev_rendered,
            final(self).diff.prev_inner_render == old(self).diff.prev_inner_render,
            final(self).diff.diff_committed == old(self).diff.diff_committed,
            diff_cancelled(*old(self), ch) ==> final(self).last_valid() == Seq::<char>::empty()
                && final(self).diff.last_valid_raw_len == 0,
            !diff_cancelled(*old(self), ch) ==> final(self).diff.last_valid_out == old(self).diff.last_valid_out
                && final(self).diff.last_valid_raw_len == old(self).diff.last_valid_raw_len,
    {
        let ghost old_raw = raw_buf_items(self.diff.raw_chars);
        let raw_len_before = self.raw_len;
        raw_buf_try_push(&mut self.diff.raw_chars, ch);
        self.feed(ch);
        let raw_len_after = self.raw_len;
        assert(raw_buf_items(self.diff.raw_chars) == old_raw.push(ch));

        // A cancelling key pair ate the new key and the one before it in the
        // engine: drop the earlier key from the diff raw keys too.
        let double_cancel_fired = raw_len_after == raw_len_before && !raw_buf_is_empty(&self.diff.raw_chars);
        if double_cancel_fired {
            let last_idx = raw_buf_len(&self.diff.raw_chars) - 1;
            if last_idx >= 1 {
                raw_buf_swap(&mut self.diff.raw_chars, last_idx - 1, last_idx);
                raw_buf_truncate(&mut self.diff.raw_chars, last_idx);
                self.raw_len = raw_buf_len(&self.diff.raw_chars);
                assert(raw_buf_items(self.diff.raw_chars) =~= old_raw.drop_last().push(ch));
            }
            self.diff.last_valid_raw_len = 0;
            self.diff.last_valid_coda_start = 0;
            self.diff.last_valid_out.clear();
            assert(self.diff.last_valid_out@ =~= Seq::<char>::empty());
        }
        self.composing_chars()
    }

    /// Diff mode, V-C-V split at `split`: the raw keys before it are
    /// rendered by a fresh engine and committed, and the word restarts with
    /// the keys from `split` on.
    fn feed_diff_split(&mut self, split: usize) -> (r: (usize, String))
        requires
            old(self).wf(),
            0 < split < old(self).diff_raw().len(),
        ensures
            ({
                let keys = old(self).diff_raw();
                let added = render_fresh(old(self).method(), keys.subrange(0, split as int));
                let w = feed_all(
                    old(self).method(),
                    old(self).quick_start_on(),
                    old(self).quick_telex_on(),
                    (Seq::<Syl>::empty(), old(self).raw_slots(), 0),
                    keys.subrange(split as int, keys.len() as int),
                );
                &&& final(self).wf()
                &&& final(self).input_method == old(self).input_method
                &&& final(self).enable_quick_start == old(self).enable_quick_start
                &&& final(self).enable_quick_telex == old(self).enable_quick_telex
                &&& final(self).enable_modern_orthography == old(self).enable_modern_orthography
                &&& added.len() > 0
                &&& final(self).diff_raw() == keys.subrange(split as int, keys.len() as int)
                &&& final(self).diff_committed_view() == old(self).diff_committed_view() + added
                &&& final(self).composing() == render_word(old(self).method(), w)
                &&& final(self).word() == (w.0, w.1, final(self).diff_raw().len() as int)
                &&& final(self).committed_view() == old(self).committed_view()
                &&& final(self).screen() == final(self).composing()
                &&& final(self).inner_screen() == final(self).composing()
                &&& (final(self).last_valid(), final(self).last_valid_len()) == last_valid_after(
                    final(self).diff_raw(),
                    final(self).composing(),
                    Seq::<char>::empty(),
                    0,
                )
                &&& r.0 == screen_diff(old(self).screen(), added + final(self).screen()).0
                &&& r.1@ == screen_diff(old(self).screen(), added + final(self).screen()).1
            }),
    {
        let ghost keys = raw_buf_items(self.diff.raw_chars);
        let ghost old_dc = self.diff.diff_committed@;
        let n = raw_buf_len(&self.diff.raw_chars);
        let raw = raw_buf_as_slice(&self.diff.raw_chars);
        let committed_raw = &raw[0..split];
        let new_syl_raw = raw_buf_from_slice(&raw[split..n]);
        assert(raw_buf_items(new_syl_raw) =~= keys.subrange(split as int, n as int));
        assert(committed_raw@ =~= keys.subrange(0, split as int));
        let committed_out = Self::rerender_chars(committed_raw, self.input_method);
        proof {
            assert forall|j: int| 0 <= j < committed_raw@.len() implies !white_space(
                #[trigger] committed_raw@[j],
            ) by {
                assert(committed_raw@[j] == keys[j]);
            }
            lemma_render_fresh_nonempty(self.input_method, committed_raw@);
        }
        extend_chars(&mut self.diff.diff_committed, committed_out.as_slice());
        // Restart the engine with the new syllable.
        self.restart_word(raw_buf_as_slice(&new_syl_raw));
        let new_composed2 = self.composing_chars();
        let mut full_screen = copy_chars(committed_out.as_slice());
        extend_chars(&mut full_screen, new_composed2.as_slice());
        let (bs, suffix) = diff_outputs(self.diff.prev_rendered.as_slice(), full_screen.as_slice());
        self.diff.diff_suffix = suffix;
        self.diff.raw_chars = new_syl_raw;
        self.raw_len = raw_buf_len(&self.diff.raw_chars);
        self.diff.prev_rendered = copy_chars(new_composed2.as_slice());
        self.diff.prev_inner_render = copy_chars(new_composed2.as_slice());
        let is_new_raw = is_raw_passthrough(raw_buf_as_slice(&self.diff.raw_chars), new_composed2.as_slice());
        if is_new_raw {
            self.diff.last_valid_raw_len = 0;
            self.diff.last_valid_coda_start = 0;
            self.diff.last_valid_out.clear();
        } else {
            self.diff.last_valid_raw_len = raw_buf_len(&self.diff.raw_chars);
            self.diff.last_valid_coda_start = raw_coda_start(raw_buf_as_slice(&self.diff.raw_chars));
            self.diff.last_valid_out = copy_chars(new_composed2.as_slice());
        }
        proof {
            assert(raw_buf_items(self.diff.raw_chars) == keys.subrange(split as int, keys.len() as int));
            assert(full_screen@ =~= committed_out@ + self.diff.prev_rendered@);
        }
        (bs, string_from_chars(self.diff.diff_suffix.as_slice()))
    }

    /// Feeds one character in diff mode and returns `(backspace_count,
    /// suffix_to_type)`: the edit that brings the screen up to date.
    ///
    /// A word boundary clears the word, the diff state and the V-C-V
    /// committed text, and comes back as itself with no backspace. With 24
    /// raw keys held, the word is committed (to the V-C-V committed text) and
    /// a new word starts with `ch`: the whole old screen is deleted and the
    /// new word typed. Otherwise the key goes to the engine; the pair is the
    /// minimal edit (`screen_diff`) from the old screen to the new one, which
    /// is the syllable committed by a V-C-V split, if any, followed by the
    /// new composing text. A split happens exactly when `vcv_split` holds,
    /// at `split_point` of the raw keys. The screen shows the engine's word, or, while a
    /// single consonant follows a valid syllable, that syllable
    /// with the consonant appended. Right after such an optimistic display,
    /// a key that does not continue it is diffed from the engine's previous
    /// render instead of the screen (`diff_baseline`).
    #[verifier::rlimit(100)]
    #[verifier::spinoff_prover]
    pub fn feed_diff(&mut self, ch: char) -> (r: (usize, String))
        requires
            old(self).wf(),
        ensures
            feed_diff_done(*old(self), *final(self), ch, r.0, r.1@),
    {
        if is_word_boundary(ch) {
            self.buf.clear();
            self.raw_len = 0;
            self.out_buf.clear();
            self.diff.clear();
            self.diff.diff_suffix.push(ch);
            proof {
                assert(self.diff.diff_suffix@ =~= seq![ch]);
            }
            return (0, string_from_chars(self.diff.diff_suffix.as_slice()));
        }
        if raw_buf_is_full(&self.diff.raw_chars) {
            // Safety valve: the raw buffer is full; commit and start fresh.
            return self.feed_diff_full(ch);
        }
        let ghost old_dc = self.diff.diff_committed@;
        let ghost old_raw = raw_buf_items(self.diff.raw_chars);
        let new_composed = self.feed_diff_key(ch);
        let ghost keys = raw_buf_items(self.diff.raw_chars);
        assert(keys == old_raw.push(ch) || (old_raw.len() > 0 && keys == old_raw.drop_last().push(ch)));
        assert(keys.len() > 0 && keys.last() == ch);

        let is_now_raw = is_raw_passthrough(raw_buf_as_slice(&self.diff.raw_chars), new_composed.as_slice());
        if !is_now_raw {
            self.diff.last_valid_raw_len = raw_buf_len(&self.diff.raw_chars);
            self.diff.last_valid_coda_start = raw_coda_start(raw_buf_as_slice(&self.diff.raw_chars));
            self.diff.last_valid_out = copy_chars(new_composed.as_slice());
        }

        // Optimistic display: a single consonant after a valid syllable is
        // shown appended to it.
        let ch_is_tone = Self::is_tone_key_in_mode(ch, self.input_method);
        let is_optimistic = is_now_raw && self.diff.last_valid_out.len() > 0 && !ch_is_tone
            && is_single_consonant_appended(raw_buf_as_slice(&self.diff.raw_chars), self.diff.last_valid_raw_len);
        let display_composed = if is_optimistic {
            let mut d = copy_chars(self.diff.last_valid_out.as_slice());
            d.push(ch);
            d
        } else {
            copy_chars(new_composed.as_slice())
        };
        // After an optimistic step, a step that is not optimistic is diffed
        // from the engine's previous render rather than the screen.
        let prev_was_optimistic = !chars_equal(
            self.diff.prev_rendered.as_slice(),
            self.diff.prev_inner_render.as_slice(),
        );
        let diff_baseline = if !is_optimistic && prev_was_optimistic {
            copy_chars(self.diff.prev_inner_render.as_slice())
        } else {
            copy_chars(self.diff.prev_rendered.as_slice())
        };
        self.diff.prev_inner_render = copy_chars(new_composed.as_slice());

        // V-C-V boundary: a vowel turned a valid syllable into raw text.
        let ch_is_vowel = is_ascii_vowel(char_low_byte(ch));
        if is_now_raw && ch_is_vowel && self.diff.last_valid_out.len() > 0 && self.diff.last_valid_raw_len
            < raw_buf_len(&self.diff.raw_chars) {
            let split = find_split_point(raw_buf_as_slice(&self.diff.raw_chars));
            if split > 0 {
                let r = self.feed_diff_split(split);
                proof {
                    let added = self.diff.diff_committed@.subrange(
                        old_dc.len() as int,
                        self.diff.diff_committed@.len() as int,
                    );
                    let fresh = render_fresh(old(self).input_method, keys.subrange(0, split as int));
                    assert(added =~= fresh);
                    assert(self.diff.diff_committed@.subrange(0, old_dc.len() as int) =~= old_dc);
                    assert(vcv_split(*old(self), ch));
                    screen_diff_reconstructs(old(self).diff.prev_rendered@, added + self.diff.prev_rendered@);
                }
                return r;
            }
        }
        let (bs, suffix) = diff_outputs(diff_baseline.as_slice(), display_composed.as_slice());
        self.diff.diff_suffix = suffix;
        self.diff.prev_rendered = display_composed;
        proof {
            let added = self.diff.diff_committed@.subrange(
                old_dc.len() as int,
                self.diff.diff_committed@.len() as int,
            );
            assert(added =~= Seq::<char>::empty());
            assert(self.diff.diff_committed@.subrange(0, old_dc.len() as int) =~= old_dc);
            assert(added + self.diff.prev_rendered@ =~= self.diff.prev_rendered@);
            screen_diff_reconstructs(diff_baseline@, self.diff.prev_rendered@);
            assert(!vcv_split(*old(self), ch));
        }
        (bs, string_from_chars(self.diff.diff_suffix.as_slice()))
    }

    /// Handles a physical Backspace in diff mode and returns the edit
    /// `(backspace_count, suffix_to_type)` for the screen.
    ///
    /// With no raw key held, nothing changes and nothing is to be edited.
    /// Otherwise the last raw key is dropped, the engine
    /// replays the rest, and the pair is the minimal edit from the old screen
    /// to the engine's new word.
    pub fn backspace_diff(&mut self) -> (r: (usize, String))
        requires
            old(self).wf(),
        ensures
            backspace_diff_done(*old(self), *final(self), r.0, r.1@),
    {
        if raw_buf_is_empty(&self.diff.raw_chars) {
            self.diff.diff_suffix.clear();
            return (0, string_from_chars(self.diff.diff_suffix.as_slice()));
        }
        raw_buf_pop(&mut self.diff.raw_chars);
        let prev = copy_chars(self.diff.prev_rendered.as_slice());
        self.backspace();
        self.raw_len = raw_buf_len(&self.diff.raw_chars);
        let new_composed = self.composing_chars();
        self.diff.prev_inner_render = copy_chars(new_composed.as_slice());
        if raw_buf_is_empty(&self.diff.raw_chars) {
            self.buf.clear();
            self.raw_len = 0;
            self.out_buf.clear();
            self.diff.last_valid_raw_len = 0;
            self.diff.last_valid_coda_start = 0;
            self.diff.last_valid_out.clear();
            let (bs, suffix) = diff_outputs(prev.as_slice(), new_composed.as_slice());
            self.diff.diff_suffix = suffix;
            self.diff.prev_rendered.clear();
            self.diff.prev_inner_render.clear();
            proof {
                screen_diff_reconstructs(prev@, new_composed@);
            }
            return (bs, string_from_chars(self.diff.diff_suffix.as_slice()));
        }
        let is_raw = is_raw_passthrough(raw_buf_as_slice(&self.diff.raw_chars), new_composed.as_slice());
        if is_raw {
            self.diff.last_valid_raw_len = 0;
            self.diff.last_valid_coda_start = 0;
            self.diff.last_valid_out.clear();
        } else {
            self.diff.last_valid_raw_len = raw_buf_len(&self.diff.raw_chars);
            self.diff.last_valid_coda_start = raw_coda_start(raw_buf_as_slice(&self.diff.raw_chars));
            self.diff.last_valid_out = copy_chars(new_composed.as_slice());
        }
        let (bs, suffix) = diff_outputs(prev.as_slice(), new_composed.as_slice());
        self.diff.diff_suffix = suffix;
        self.diff.prev_rendered = new_composed;
        proof {
            screen_diff_reconstructs(prev@, self.diff.prev_rendered@);
        }
        (bs, string_from_chars(self.diff.diff_suffix.as_slice()))
    }

    /// Explicit commit in diff mode (Enter, click, ...): forgets the word and
    /// the screen state; the V-C-V committed text is kept.
    pub fn commit_diff(&mut self) -> (r: (usize, String))
        requires
            old(self).wf(),
        ensures
            final(self).wf(),
            final(self).method() == old(self).method(),
            r.0 == 0,
            r.1@ == Seq::<char>::empty(),
            final(self).entries() == Seq::<Syl>::empty(),
            final(self).raw_count() == 0,
            final(self).composing() == Seq::<char>::empty(),
            final(self).diff_raw() == Seq::<char>::empty(),
            final(self).screen() == Seq::<char>::empty(),
            final(self).inner_screen() == Seq::<char>::empty(),
            final(self).diff_committed_view() == old(self).diff_committed_view(),
            final(self).committed_view() == old(self).committed_view(),
    {
        self.buf.clear();
        self.raw_len = 0;
        self.out_buf.clear();
        raw_buf_clear(&mut self.diff.raw_chars);
        self.diff.prev_rendered.clear();
        self.diff.prev_inner_render.clear();
        self.diff.last_valid_raw_len = 0;
        self.diff.last_valid_coda_start = 0;
        self.diff.last_valid_out.clear();
        self.diff.diff_suffix.clear();
        (0, string_from_chars(self.diff.diff_suffix.as_slice()))
    }

    /// Hard reset in diff mode (focus lost, app switch, ...).
    pub fn reset_diff(&mut self)
        requires
            old(self).wf(),
        ensures
            final(self).wf(),
            final(self).method() == old(self).method(),
            final(self).entries() == Seq::<Syl>::empty(),
            final(self).raw_count() == 0,
            final(self).composing() == Seq::<char>::empty(),
            final(self).diff_raw() == Seq::<char>::empty(),
            final(self).screen() == Seq::<char>::empty(),
            final(self).inner_screen() == Seq::<char>::empty(),
            final(self).diff_committed_view() == Seq::<char>::empty(),
            final(self).committed_view() == old(self).committed_view(),
            final(self).quick_start_on() == old(self).quick_start_on(),
            final(self).quick_telex_on() == old(self).quick_telex_on(),
            final(self).modern_on() == old(self).modern_on(),
    {
        self.buf.clear();
        self.raw_len = 0;
        self.out_buf.clear();
        self.diff.clear();
    }

    /// Whether a word is being composed in diff mode.
    pub fn is_composing_diff(&self) -> (r: bool)
        requires
            self.wf(),
        ensures
            r == (self.diff_raw().len() > 0),
    {
        !raw_buf_is_empty(&self.diff.raw_chars)
    }

    /// The composing text on screen in diff mode.
    pub fn current_composing_diff(&self) -> (s: String)
        ensures
            s@ == self.screen(),
    {
        string_from_chars(self.diff.prev_rendered.as_slice())
    }

    /// The text committed by V-C-V splits in diff mode.
    pub fn committed_text_diff(&self) -> (s: String)
        ensures
            s@ == self.diff_committed_view(),
    {
        string_from_chars(self.diff.diff_committed.as_slice())
    }

    /// The engine's own last render in diff mode.
    pub fn prev_inner_render_debug(&self) -> (s: String)
        ensures
            s@ == self.inner_screen(),
    {
        string_from_chars(self.diff.prev_inner_render.as_slice())
    }

    /// The composing text on screen in diff mode.
    pub fn prev_rendered_debug(&self) -> (s: String)
        ensures
            s@ == self.screen(),
    {
        string_from_chars(self.diff.prev_rendered.as_slice())
    }

    /// The composing word as characters.
    pub(crate) fn composing_chars(&self) -> (v: Vec<char>)
        ensures
            v@ == self.composing(),
    {
        let mut v: Vec<char> = Vec::new();
        crate::text::extend_chars(&mut v, self.out_buf.as_slice());
        v
    }
}

/// The word the engine holds after `ch` is typed into `old`.
pub open spec fn typed_word(old: UltraFastViEngine, ch: char) -> Word {
    feed_word(old.method(), old.quick_start_on(), old.quick_telex_on(), old.word(), ch)
}

/// The key `ch` cancelled itself and the key before it in the engine: the
/// raw count did not grow.
pub open spec fn diff_cancelled(old: UltraFastViEngine, ch: char) -> bool {
    typed_word(old, ch).2 == old.raw_count()
}

/// The diff-mode raw keys after `ch`, before any split: `ch` appended, or,
/// after a cancelling pair, put in place of the last key.
pub open spec fn diff_keys(old: UltraFastViEngine, ch: char) -> Seq<char> {
    if diff_cancelled(old, ch) && old.diff_raw().len() > 0 {
        old.diff_raw().drop_last().push(ch)
    } else {
        old.diff_raw().push(ch)
    }
}

/// Whether `ch` starts a second syllable (V-C-V): the word has turned into
/// raw text, `ch` is a vowel, a valid syllable was seen before it with fewer
/// keys, and a split point exists.
pub open spec fn vcv_split(old: UltraFastViEngine, ch: char) -> bool {
    let keys = diff_keys(old, ch);
    &&& raw_passthrough(keys, render_word(old.method(), typed_word(old, ch)))
    &&& ascii_vowel(low_byte(ch))
    &&& !diff_cancelled(old, ch)
    &&& old.last_valid().len() > 0
    &&& old.last_valid_len() < keys.len()
    &&& split_point(keys) > 0
}

/// The word that `backspace` leaves: the raw keys but the last replayed
/// (each in its recorded case), or,
/// with no raw key, the entries and raw snapshot as they were.
pub open spec fn backspace_word(e: UltraFastViEngine) -> Word {
    if e.raw_count() > 0 {
        replay_from(e.method(), e.raw_slots(), e.caps_slots(), e.raw_count() - 1, 0, (Seq::<Syl>::empty(), e.raw_slots(), 0))
    } else {
        (e.entries(), e.raw_slots(), 0)
    }
}

/// The recorded case of each raw slot after `backspace`.
pub open spec fn backspace_caps(e: UltraFastViEngine) -> Seq<bool> {
    if e.raw_count() > 0 {
        replay_caps(
            e.method(),
            e.raw_slots(),
            e.caps_slots(),
            e.raw_count() - 1,
            0,
            (Seq::<Syl>::empty(), e.raw_slots(), 0),
            e.caps_slots(),
        )
    } else {
        e.caps_slots()
    }
}

/// The committed text that `backspace` leaves: unchanged while raw keys are
/// held, else without its last character.
pub open spec fn backspace_committed(e: UltraFastViEngine) -> Seq<char> {
    if e.raw_count() > 0 || e.committed_view().len() == 0 {
        e.committed_view()
    } else {
        e.committed_view().drop_last()
    }
}

/// What `feed_diff` of `ch` does: `old` becomes `new` and the screen edit
/// `(bs, out)` is returned. A word boundary clears the word, the diff state
/// and the V-C-V committed text and comes back as itself; with the raw
/// buffer full the word is committed and a new word starts with `ch`;
/// otherwise the key goes to the engine and the edit is the minimal one from
/// the old screen to the syllable committed by a V-C-V split, if any,
/// followed by the new screen.
pub open spec fn feed_diff_done(
    old: UltraFastViEngine,
    new: UltraFastViEngine,
    ch: char,
    bs: usize,
    out: Seq<char>,
) -> bool {
    &&& new.wf()
    &&& new.method() == old.method()
    &&& new.quick_start_on() == old.quick_start_on()
    &&& new.quick_telex_on() == old.quick_telex_on()
    &&& new.modern_on() == old.modern_on()
    &&& word_boundary(ch) ==> {
        &&& new.committed_view() == old.committed_view()
        &&& bs == 0
        &&& out == seq![ch]
        &&& new.diff_raw() == Seq::<char>::empty()
        &&& new.screen() == Seq::<char>::empty()
        &&& new.inner_screen() == Seq::<char>::empty()
        &&& new.diff_committed_view() == Seq::<char>::empty()
        &&& new.entries() == Seq::<Syl>::empty()
        &&& new.raw_count() == 0
        &&& new.composing() == Seq::<char>::empty()
        &&& new.last_valid() == Seq::<char>::empty()
        &&& new.last_valid_len() == 0
    }
    &&& !word_boundary(ch) ==> {
        &&& new.committed_view() == old.committed_view()
        &&& new.diff_raw().len() > 0
        &&& new.diff_raw().last() == ch
        &&& new.inner_screen() == new.composing()
        &&& new.screen() == (if new.optimistic_display(ch) {
            new.last_valid().push(ch)
        } else {
            new.composing()
        })
    }
    &&& !word_boundary(ch) && old.diff_raw().len() >= RAW_CAPACITY ==> {
        &&& new.composing() == render_word(
            old.method(),
            feed_word(
                old.method(),
                old.quick_start_on(),
                old.quick_telex_on(),
                (Seq::<Syl>::empty(), old.raw_slots(), 0),
                ch,
            ),
        )
        &&& bs == old.screen().len()
        &&& out == new.screen()
        &&& new.screen() == new.composing()
        &&& new.diff_raw() == seq![ch]
        &&& new.diff_committed_view() == old.diff_committed_view()
            + old.render_spec()
        &&& new.word() == feed_word(
            old.method(),
            old.quick_start_on(),
            old.quick_telex_on(),
            (Seq::<Syl>::empty(), old.raw_slots(), 0),
            ch,
        )
        &&& new.last_valid() == Seq::<char>::empty()
        &&& new.last_valid_len() == 0
    }
    &&& !word_boundary(ch) && old.diff_raw().len() < RAW_CAPACITY ==> {
        let added = new.diff_committed_view().subrange(
            old.diff_committed_view().len() as int,
            new.diff_committed_view().len() as int,
        );
        let typed = feed_word(
            old.method(),
            old.quick_start_on(),
            old.quick_telex_on(),
            old.word(),
            ch,
        );
        let base = if added.len() > 0 {
            old.screen()
        } else {
            diff_baseline(old.screen(), old.inner_screen(), new.optimistic_display(ch))
        };
        &&& old.diff_committed_view().len() <= new.diff_committed_view().len()
        &&& new.diff_committed_view().subrange(
            0,
            old.diff_committed_view().len() as int,
        ) == old.diff_committed_view()
        &&& added.len() == 0 ==> new.composing() == render_word(old.method(), typed)
        &&& added.len() > 0 ==> new.composing() == render_word(
            old.method(),
            feed_all(
                old.method(),
                old.quick_start_on(),
                old.quick_telex_on(),
                (Seq::<Syl>::empty(), typed.1, 0),
                new.diff_raw(),
            ),
        )
        &&& bs == screen_diff(base, added + new.screen()).0
        &&& out == screen_diff(base, added + new.screen()).1
        &&& bs <= base.len()
        &&& base.subrange(0, base.len() - bs) + out == added + new.screen()
        &&& (added.len() > 0 <==> vcv_split(old, ch))
        &&& vcv_split(old, ch) ==> {
            let keys = diff_keys(old, ch);
            let k = split_point(keys);
            &&& new.diff_raw() == keys.subrange(k, keys.len() as int)
            &&& added == render_fresh(old.method(), keys.subrange(0, k))
        }
        &&& !vcv_split(old, ch) ==> {
            &&& new.diff_raw() == diff_keys(old, ch)
            &&& new.entries() == typed.0
            &&& new.raw_slots() == typed.1
            &&& new.raw_count() == (if diff_cancelled(old, ch) && old.diff_raw().len() > 0 {
                old.diff_raw().len() as int
            } else {
                typed.2
            })
            &&& (new.last_valid(), new.last_valid_len()) == last_valid_after(
                new.diff_raw(),
                new.composing(),
                if diff_cancelled(old, ch) { Seq::<char>::empty() } else { old.last_valid() },
                if diff_cancelled(old, ch) { 0 } else { old.last_valid_len() },
            )
        }
        &&& vcv_split(old, ch) ==> {
            let w = feed_all(
                old.method(),
                old.quick_start_on(),
                old.quick_telex_on(),
                (Seq::<Syl>::empty(), typed.1, 0),
                new.diff_raw(),
            );
            &&& new.word() == (w.0, w.1, new.diff_raw().len() as int)
            &&& (new.last_valid(), new.last_valid_len()) == last_valid_after(
                new.diff_raw(),
                new.composing(),
                Seq::<char>::empty(),
                0,
            )
        }
    }
}

/// Law: in diff mode, whitespace and the punctuation `. , ! ? ; : " ' ( ) [
/// ] { }` end the word: the character comes back as typed with no
/// backspace, and the next word starts from nothing (no raw key, no entry,
/// nothing on screen, no committed syllable).
pub proof fn feed_diff_boundary_starts_new_word(
    old: UltraFastViEngine,
    new: UltraFastViEngine,
    ch: char,
    bs: usize,
    out: Seq<char>,
)
    requires
        feed_diff_done(old, new, ch, bs, out),
        ch == ' ' || ch == '\t' || ch == '\n' || ch == '\r' || ch == '.' || ch == ',' || ch == '!' || ch == '?'
            || ch == ';' || ch == ':' || ch == '"' || ch == '\'' || ch == '(' || ch == ')' || ch == '[' || ch == ']'
            || ch == '{' || ch == '}',
    ensures
        bs == 0,
        out == seq![ch],
        new.diff_raw() == Seq::<char>::empty(),
        new.entries() == Seq::<Syl>::empty(),
        new.raw_count() == 0,
        new.screen() == Seq::<char>::empty(),
        new.diff_committed_view() == Seq::<char>::empty(),
{
    word_boundary_characters(ch);
}

/// What `backspace_diff` does: `old` becomes `new` and the screen edit
/// `(bs, out)` is returned. With no raw key nothing changes; otherwise the last raw key is dropped and the edit
/// is the minimal one from the old screen to the rebuilt word.
pub open spec fn backspace_diff_done(old: UltraFastViEngine, new: UltraFastViEngine, bs: usize, out: Seq<char>) -> bool {
    let rebuilt = replay_from(
        old.method(),
        old.raw_slots(),
        old.caps_slots(),
        old.raw_count() - 1,
        0,
        (Seq::<Syl>::empty(), old.raw_slots(), 0),
    );
    &&& new.wf()
    &&& new.method() == old.method()
    &&& new.quick_start_on() == old.quick_start_on()
    &&& new.quick_telex_on() == old.quick_telex_on()
    &&& new.modern_on() == old.modern_on()
    &&& old.diff_raw().len() == 0 ==> {
        &&& new.last_valid() == old.last_valid()
        &&& new.last_valid_len() == old.last_valid_len()
        &&& bs == 0
        &&& out == Seq::<char>::empty()
        &&& new.diff_raw() == old.diff_raw()
        &&& new.screen() == old.screen()
        &&& new.inner_screen() == old.inner_screen()
        &&& new.diff_committed_view() == old.diff_committed_view()
        &&& new.word() == old.word()
        &&& new.composing() == old.composing()
        &&& new.committed_view() == old.committed_view()
    }
    &&& old.diff_raw().len() > 0 ==> {
        &&& new.diff_raw() == old.diff_raw().drop_last()
        &&& new.diff_committed_view() == old.diff_committed_view()
        &&& bs <= old.screen().len()
        &&& old.raw_count() > 0 ==> new.committed_view() == old.committed_view()
        &&& old.raw_count() == 0 && old.committed_view().len() > 0 ==> new.committed_view()
            == old.committed_view().drop_last()
        &&& old.raw_count() == 0 && old.committed_view().len() == 0 ==> new.committed_view()
            == old.committed_view()
        &&& new.diff_raw().len() > 0 ==> {
            &&& old.raw_count() > 0 ==> new.entries() == rebuilt.0 && new.raw_slots() == rebuilt.1
            &&& old.raw_count() == 0 ==> new.entries() == old.entries() && new.raw_slots() == old.raw_slots()
            &&& (new.last_valid(), new.last_valid_len()) == last_valid_after(
                new.diff_raw(),
                new.composing(),
                Seq::<char>::empty(),
                0,
            )
            &&& new.screen() == new.composing()
            &&& new.screen() == old.backspace_render()
            &&& new.inner_screen() == new.composing()
            &&& new.raw_count() == new.diff_raw().len()
            &&& bs == screen_diff(old.screen(), new.screen()).0
            &&& out == screen_diff(old.screen(), new.screen()).1
            &&& old.screen().subrange(0, old.screen().len() - bs) + out
                == new.screen()
        }
        &&& new.diff_raw().len() == 0 ==> {
            &&& new.screen() == Seq::<char>::empty()
            &&& new.inner_screen() == Seq::<char>::empty()
            &&& new.composing() == Seq::<char>::empty()
            &&& new.entries() == Seq::<Syl>::empty()
            &&& new.raw_count() == 0
            &&& new.last_valid() == Seq::<char>::empty()
            &&& new.last_valid_len() == 0
            &&& bs == screen_diff(old.screen(), old.backspace_render()).0
            &&& out == screen_diff(old.screen(), old.backspace_render()).1
        }
    }
}

impl Default for UltraFastViEngine {
    fn default() -> (e: Self)
        ensures
            e.wf(),
            e.entries() == Seq::<Syl>::empty(),
            e.raw_count() == 0,
            e.composing() == Seq::<char>::empty(),
            e.committed_view() == Seq::<char>::empty(),
            e.method() == InputMethod::Telex,
    {
        Self::new()
    }
}

} // verus!
