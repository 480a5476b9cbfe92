//! Diff-based IME wrapper around [`UltraFastViEngine`] with V-C-V syllable
//! boundary detection.
//!
//! An IME needs to know what changed on screen: `ReplayEngine` turns the
//! engine's composing snapshots into `(backspace_count, suffix)` pairs. When
//! the user starts a second syllable (`neebo` = `nê` + `bo`), the first one is
//! committed and a new word is composed from the rest of the raw keys.

use vstd::prelude::*;
use crate::chars::{ascii_vowel, char_low_byte, is_ascii_vowel, is_word_boundary, low_byte, white_space, word_boundary};
use crate::engine::{backspace_committed, backspace_word, render_word, UltraFastViEngine};
use crate::keystep::{
    feed_all, feed_word, fresh_word, lemma_render_fresh_nonempty, no_white_space, render_fresh, Word,
};
use crate::syllable::Syl;
use crate::modes::{key_class, InputMethod, KeyClass};
use crate::rawbuf::{
    raw_buf_as_slice, raw_buf_clear, raw_buf_from_slice, raw_buf_is_empty, raw_buf_is_full, raw_buf_items,
    raw_buf_len, raw_buf_new, raw_buf_pop, raw_buf_swap, raw_buf_truncate, raw_buf_try_push, RAW_BUF_CAPACITY,
};
use crate::text::{chars_equal, copy_chars, extend_chars, string_from_chars};
use arrayvec::ArrayVec;

verus! {

// ---------------------------------------------------------------------------
// Diff of two screens
// ---------------------------------------------------------------------------

/// Length of the longest common prefix of `a[i..]` and `b[i..]`, plus `i`.
pub open spec fn common_prefix_from(a: Seq<char>, b: Seq<char>, i: int) -> int
    decreases a.len() - i,
{
    if 0 <= i < a.len() && i < b.len() && a[i] == b[i] {
        common_prefix_from(a, b, i + 1)
    } else {
        i
    }
}

/// Length of the longest common prefix of `a` and `b`.
pub open spec fn common_prefix(a: Seq<char>, b: Seq<char>) -> int {
    common_prefix_from(a, b, 0)
}

pub proof fn lemma_common_prefix_from(a: Seq<char>, b: Seq<char>, i: int)
    requires
        0 <= i <= a.len(),
        i <= b.len(),
        a.subrange(0, i) == b.subrange(0, i),
    ensures
        i <= common_prefix_from(a, b, i) <= a.len(),
        common_prefix_from(a, b, i) <= b.len(),
        a.subrange(0, common_prefix_from(a, b, i)) == b.subrange(0, common_prefix_from(a, b, i)),
        common_prefix_from(a, b, i) < a.len() && common_prefix_from(a, b, i) < b.len() ==> a[common_prefix_from(a, b, i)]
            != b[common_prefix_from(a, b, i)],
    decreases a.len() - i,
{
    if i < a.len() && i < b.len() && a[i] == b[i] {
        assert(a.subrange(0, i + 1) =~= a.subrange(0, i).push(a[i]));
        assert(b.subrange(0, i + 1) =~= b.subrange(0, i).push(b[i]));
        lemma_common_prefix_from(a, b, i + 1);
    }
}

/// Facts about the common prefix: it is a prefix of both, and maximal.
pub proof fn lemma_common_prefix(a: Seq<char>, b: Seq<char>)
    ensures
        0 <= common_prefix(a, b) <= a.len(),
        common_prefix(a, b) <= b.len(),
        a.subrange(0, common_prefix(a, b)) == b.subrange(0, common_prefix(a, b)),
        common_prefix(a, b) < a.len() && common_prefix(a, b) < b.len() ==> a[common_prefix(a, b)]
            != b[common_prefix(a, b)],
{
    assert(a.subrange(0, 0) =~= b.subrange(0, 0));
    lemma_common_prefix_from(a, b, 0);
}

/// The edit that turns the screen `old` into `new`: how many trailing
/// characters to delete and what to type after.
pub open spec fn screen_diff(old: Seq<char>, new: Seq<char>) -> (int, Seq<char>) {
    let k = common_prefix(old, new);
    (old.len() - k, new.subrange(k, new.len() as int))
}

/// The text a key's edit is computed from: the screen, except right after
/// an optimistic display (the screen differs from the inner engine's output)
/// when the new display is not optimistic; then the inner engine's previous
/// output. Keys typed on after an optimistic consonant thus come out as
/// small appends to the raw text, and the edited screen can then differ
/// from the recorded screen (`screen`).
pub open spec fn diff_baseline(screen: Seq<char>, inner: Seq<char>, optimistic: bool) -> Seq<char> {
    if !optimistic && screen != inner {
        inner
    } else {
        screen
    }
}

/// The last valid output and its raw-key count after a step that leaves the
/// raw keys `keys` and the engine output `composing`: the output itself when
/// it is Vietnamese (not the raw keys), else what was kept from before.
pub open spec fn last_valid_after(keys: Seq<char>, composing: Seq<char>, kept: Seq<char>, kept_len: int) -> (
    Seq<char>,
    int,
) {
    if raw_passthrough(keys, composing) {
        (kept, kept_len)
    } else {
        (composing, keys.len() as int)
    }
}

/// Screen law: deleting `screen_diff(old, new).0` characters from `old` and
/// typing `screen_diff(old, new).1` yields `new`, and no fewer deletions can:
/// with fewer, what remains of `old` is not a prefix of `new`.
pub proof fn screen_diff_reconstructs(old: Seq<char>, new: Seq<char>)
    ensures
        ({
            let (bs, suffix) = screen_diff(old, new);
            &&& 0 <= bs <= old.len()
            &&& old.subrange(0, old.len() - bs) + suffix == new
            &&& forall|fewer: int|
                0 <= fewer < bs ==> !(old.len() - fewer <= new.len() && #[trigger] old.subrange(
                    0,
                    old.len() - fewer,
                ) == new.subrange(0, old.len() - fewer))
        }),
{
    lemma_common_prefix(old, new);
    let k = common_prefix(old, new);
    let (bs, suffix) = screen_diff(old, new);
    assert(old.subrange(0, old.len() - bs) + suffix =~= new) by {
        assert(old.subrange(0, k) == new.subrange(0, k));
    }
    assert forall|fewer: int|
        0 <= fewer < bs implies !(old.len() - fewer <= new.len() && #[trigger] old.subrange(
            0,
            old.len() - fewer,
        ) == new.subrange(0, old.len() - fewer)) by {
        let m = old.len() - fewer;
        if m <= new.len() && old.subrange(0, m) == new.subrange(0, m) {
            assert(k < m);
            assert(old.subrange(0, m)[k] == old[k]);
            assert(new.subrange(0, m)[k] == new[k]);
        }
    }
}

/// Compute the minimal diff from `old` to `new` as `(backspaces, suffix)`.
pub fn diff_outputs(old: &[char], new: &[char]) -> (r: (usize, Vec<char>))
    ensures
        r.0 == screen_diff(old@, new@).0,
        r.1@ == screen_diff(old@, new@).1,
{
    let mut common: usize = 0;
    while common < old.len() && common < new.len() && old[common] == new[common]
        invariant
            common <= old@.len(),
            common <= new@.len(),
            common_prefix(old@, new@) == common_prefix_from(old@, new@, common as int),
        decreases old@.len() - common,
    {
        common = common + 1;
    }
    proof {
        lemma_common_prefix(old@, new@);
    }
    let mut tail: Vec<char> = Vec::new();
    let mut i = common;
    while i < new.len()
        invariant
            common <= i <= new@.len(),
            tail@ == new@.subrange(common as int, i as int),
        decreases new@.len() - i,
    {
        tail.push(new[i]);
        i = i + 1;
        assert(tail@ =~= new@.subrange(common as int, i as int));
    }
    (old.len() - common, tail)
}

// ---------------------------------------------------------------------------
// Raw-key helpers
// ---------------------------------------------------------------------------

/// Whether `ch` is an ASCII vowel once cut to its low byte.
pub open spec fn vowel_char(ch: char) -> bool {
    ascii_vowel(low_byte(ch))
}

fn is_vowel_char(ch: char) -> (r: bool)
    ensures
        r == vowel_char(ch),
{
    is_ascii_vowel(char_low_byte(ch))
}

/// Whether the composed output shows exactly the raw keys (no Vietnamese
/// transform applied); an empty raw sequence counts as passthrough.
pub open spec fn raw_passthrough(raw: Seq<char>, composed: Seq<char>) -> bool {
    raw.len() == 0 || composed == raw
}

/// Returns `true` if the composed output is the same as the raw input.
pub fn is_raw_passthrough(raw: &[char], composed: &[char]) -> (r: bool)
    ensures
        r == raw_passthrough(raw@, composed@),
{
    if raw.len() == 0 {
        return true;
    }
    if raw.len() != composed.len() {
        return false;
    }
    let mut i: usize = 0;
    while i < raw.len()
        invariant
            i <= raw@.len(),
            raw@.len() == composed@.len(),
            raw@.subrange(0, i as int) == composed@.subrange(0, i as int),
        decreases raw@.len() - i,
    {
        if raw[i] != composed[i] {
            assert(raw@[i as int] != composed@[i as int]);
            return false;
        }
        i = i + 1;
        assert(raw@.subrange(0, i as int) =~= raw@.subrange(0, i - 1).push(raw@[i - 1]));
        assert(composed@.subrange(0, i as int) =~= composed@.subrange(0, i - 1).push(composed@[i - 1]));
    }
    assert(raw@ =~= raw@.subrange(0, raw@.len() as int));
    assert(composed@ =~= composed@.subrange(0, composed@.len() as int));
    true
}

/// Index of the last vowel in `raw[..k]` (`None` if none).
pub open spec fn last_vowel_before(raw: Seq<char>, k: int) -> Option<int>
    decreases k,
{
    if k <= 0 {
        None
    } else if vowel_char(raw[k - 1]) {
        Some(k - 1)
    } else {
        last_vowel_before(raw, k - 1)
    }
}

/// Index of the first non-vowel in `raw[i..end]` (`end` if none).
pub open spec fn first_consonant_from(raw: Seq<char>, i: int, end: int) -> int
    decreases end - i,
{
    if i >= end {
        end
    } else if !vowel_char(raw[i]) {
        i
    } else {
        first_consonant_from(raw, i + 1, end)
    }
}

/// Where the second syllable starts when the last raw key (a vowel) ended a
/// V-C-V pattern: the first consonant after the previous vowel (the new
/// vowel itself if none lies between); 0 when there is no previous vowel.
pub open spec fn split_point(raw: Seq<char>) -> int {
    let n = raw.len() as int;
    if n == 0 {
        0
    } else {
        match last_vowel_before(raw, n - 1) {
            None => 0,
            Some(v) => first_consonant_from(raw, v + 1, n - 1),
        }
    }
}

pub proof fn lemma_first_consonant_bounds(raw: Seq<char>, i: int, end: int)
    requires
        i <= end,
    ensures
        i <= first_consonant_from(raw, i, end) <= end,
    decreases end - i,
{
    if i < end && vowel_char(raw[i]) {
        lemma_first_consonant_bounds(raw, i + 1, end);
    }
}

pub proof fn lemma_last_vowel_bounds(raw: Seq<char>, k: int)
    ensures
        last_vowel_before(raw, k) matches Some(v) ==> 0 <= v < k,
    decreases k,
{
    if k > 0 && !vowel_char(raw[k - 1]) {
        lemma_last_vowel_bounds(raw, k - 1);
    }
}

/// Find the index in `raw` where the second syllable starts.
pub fn find_split_point(raw: &[char]) -> (r: usize)
    ensures
        r == split_point(raw@),
        r < raw@.len() || r == 0,
{
    let n = raw.len();
    if n == 0 {
        return 0;
    }
    let new_vowel_pos = n - 1;
    let mut k = new_vowel_pos;
    while k > 0 && !is_vowel_char(raw[k - 1])
        invariant
            k <= new_vowel_pos,
            new_vowel_pos + 1 == raw@.len(),
            last_vowel_before(raw@, new_vowel_pos as int) == last_vowel_before(raw@, k as int),
        decreases k,
    {
        k = k - 1;
    }
    if k == 0 {
        return 0;
    }
    let last_old_vowel = k - 1;
    let mut j = last_old_vowel + 1;
    while j < new_vowel_pos && is_vowel_char(raw[j])
        invariant
            last_old_vowel < j <= new_vowel_pos,
            new_vowel_pos + 1 == raw@.len(),
            first_consonant_from(raw@, last_old_vowel + 1, new_vowel_pos as int)
                == first_consonant_from(raw@, j as int, new_vowel_pos as int),
        decreases new_vowel_pos - j,
    {
        j = j + 1;
    }
    j
}

/// Exactly one consonant was typed after the last valid render.
pub open spec fn single_consonant_appended(raw: Seq<char>, last_valid_raw_len: int) -> bool {
    raw.len() == last_valid_raw_len + 1 && !vowel_char(raw[last_valid_raw_len])
}

/// Returns true if exactly one consonant was appended after `last_valid_raw_len`.
pub fn is_single_consonant_appended(raw: &[char], last_valid_raw_len: usize) -> (r: bool)
    ensures
        r == single_consonant_appended(raw@, last_valid_raw_len as int),
{
    if last_valid_raw_len >= raw.len() || raw.len() != last_valid_raw_len + 1 {
        return false;
    }
    !is_vowel_char(raw[last_valid_raw_len])
}

/// An ASCII character that is a tone key of input method `m` (Telex `s f r
/// x j z`, VNI `0`-`5`); no other character is.
pub open spec fn tone_key_char(m: InputMethod, ch: char) -> bool {
    (ch as u32) < 128 && key_class(m, low_byte(ch)) == KeyClass::ToneKey
}

/// Whether `ch` is a tone key of `engine`'s input method (such a key never
/// opens a new syllable).
pub fn ch_is_consonant_tone_key(ch: char, engine: &UltraFastViEngine) -> (r: bool)
    ensures
        r == tone_key_char(engine.method(), ch),
{
    if (ch as u32) >= 128 {
        return false;
    }
    let f = engine.mode_classify(char_low_byte(ch));
    f == crate::modes::IS_TONE_KEY
}

/// Index just past the last vowel of `raw` (0 if it has none): where the coda starts.
pub open spec fn coda_start(raw: Seq<char>) -> int {
    match last_vowel_before(raw, raw.len() as int) {
        Some(v) => v + 1,
        None => 0,
    }
}

pub fn raw_coda_start(raw: &[char]) -> (r: usize)
    ensures
        r == coda_start(raw@),
        r <= raw@.len(),
{
    let mut k = raw.len();
    while k > 0 && !is_vowel_char(raw[k - 1])
        invariant
            k <= raw@.len(),
            last_vowel_before(raw@, raw@.len() as int) == last_vowel_before(raw@, k as int),
        decreases k,
    {
        k = k - 1;
    }
    k
}


/// Replays raw keys through a fresh (Telex) engine and returns its composing word.
pub fn replay_raw_slice(raw: &[char]) -> (out: Vec<char>)
    ensures
        out@ == render_fresh(InputMethod::Telex, raw@),
{
    let mut engine = UltraFastViEngine::new();
    let mut out: Vec<char> = Vec::new();
    let mut i: usize = 0;
    while i < raw.len()
        invariant
            engine.wf(),
            i <= raw@.len(),
            engine.method() == InputMethod::Telex,
            !engine.quick_start_on(),
            !engine.quick_telex_on(),
            engine.word() == feed_all(InputMethod::Telex, false, false, fresh_word(), raw@.subrange(0, i as int)),
            engine.composing() == engine.render_spec(),
            out@ == engine.composing(),
        decreases raw@.len() - i,
    {
        engine.feed(raw[i]);
        out = engine.composing_chars();
        i = i + 1;
        assert(raw@.subrange(0, i as int).drop_last() =~= raw@.subrange(0, i - 1));
    }
    assert(raw@.subrange(0, raw@.len() as int) =~= raw@);
    out
}


// ---------------------------------------------------------------------------
// ReplayEngine
// ---------------------------------------------------------------------------

/// The inner engine's word after `ch` is typed into the replay engine `old`.
pub open spec fn replay_typed(old: ReplayEngine, ch: char) -> Word {
    let e = old.engine();
    feed_word(e.method(), e.quick_start_on(), e.quick_telex_on(), e.word(), ch)
}

/// `ch` cancelled itself and the key before it in the inner engine.
pub open spec fn replay_cancelled(old: ReplayEngine, ch: char) -> bool {
    replay_typed(old, ch).2 == old.engine().raw_count()
}

/// The raw keys after `ch`, before any split.
pub open spec fn replay_keys(old: ReplayEngine, ch: char) -> Seq<char> {
    if replay_cancelled(old, ch) && old.raw_keys().len() > 0 {
        old.raw_keys().drop_last().push(ch)
    } else {
        old.raw_keys().push(ch)
    }
}

/// Whether `ch` starts a second syllable: the word turned into raw text,
/// `ch` is a vowel, a valid output was seen with fewer keys, and a split
/// point exists.
pub open spec fn replay_vcv_split(old: ReplayEngine, ch: char) -> bool {
    let keys = replay_keys(old, ch);
    &&& raw_passthrough(keys, render_word(old.engine().method(), replay_typed(old, ch)))
    &&& vowel_char(ch)
    &&& !replay_cancelled(old, ch)
    &&& old.last_valid().len() > 0
    &&& old.last_valid_len() < keys.len()
    &&& split_point(keys) > 0
}

/// What `ReplayEngine::feed` of `ch` does: `old` becomes `new` and the
/// screen edit `(bs, out)` is returned.
pub open spec fn replay_feed_done(old: ReplayEngine, new: ReplayEngine, ch: char, bs: usize, out: Seq<char>) -> bool {
    let m = old.engine().method();
    &&& new.wf()
    &&& new.engine().method() == m
    &&& new.engine().quick_start_on() == old.engine().quick_start_on()
    &&& new.engine().quick_telex_on() == old.engine().quick_telex_on()
    &&& new.engine().modern_on() == old.engine().modern_on()
    &&& word_boundary(ch) ==> {
        &&& bs == 0
        &&& out == seq![ch]
        &&& new.raw_keys() == Seq::<char>::empty()
        &&& new.screen() == Seq::<char>::empty()
        &&& new.inner_screen() == Seq::<char>::empty()
        &&& new.committed_view() == Seq::<char>::empty()
        &&& new.engine().entries() == Seq::<Syl>::empty()
        &&& new.engine().raw_count() == 0
        &&& new.engine().composing() == Seq::<char>::empty()
        &&& new.engine().committed_view() == Seq::<char>::empty()
        &&& new.last_valid() == Seq::<char>::empty()
        &&& new.last_valid_len() == 0
    }
    &&& !word_boundary(ch) ==> {
        &&& new.raw_keys().len() > 0
        &&& new.raw_keys().last() == ch
        &&& new.inner_screen() == new.engine().composing()
        &&& new.screen() == (if new.optimistic_display(ch) {
            new.last_valid().push(ch)
        } else {
            new.engine().composing()
        })
    }
    &&& !word_boundary(ch) && old.raw_keys().len() >= RAW_BUF_CAPACITY ==> {
        &&& new.engine().composing() == render_word(
            m,
            feed_word(
                m,
                old.engine().quick_start_on(),
                old.engine().quick_telex_on(),
                (Seq::<Syl>::empty(), old.engine().raw_slots(), 0),
                ch,
            ),
        )
        &&& bs == screen_diff(old.screen(), new.screen()).0
        &&& out == screen_diff(old.screen(), new.screen()).1
        &&& new.screen() == new.engine().composing()
        &&& new.raw_keys() == seq![ch]
        &&& new.committed_view() == old.committed_view() + old.engine().composing()
        &&& new.engine().word() == feed_word(
            m,
            old.engine().quick_start_on(),
            old.engine().quick_telex_on(),
            (Seq::<Syl>::empty(), old.engine().raw_slots(), 0),
            ch,
        )
        &&& new.engine().committed_view() == Seq::<char>::empty()
        &&& new.last_valid() == Seq::<char>::empty()
        &&& new.last_valid_len() == 0
    }
    &&& !word_boundary(ch) && old.raw_keys().len() < RAW_BUF_CAPACITY ==> {
        let added = new.committed_view().subrange(old.committed_view().len() as int, new.committed_view().len() as int);
        let typed = replay_typed(old, ch);
        let keys = replay_keys(old, ch);
        let base = if added.len() > 0 {
            old.screen()
        } else {
            diff_baseline(old.screen(), old.inner_screen(), new.optimistic_display(ch))
        };
        &&& old.committed_view().len() <= new.committed_view().len()
        &&& new.committed_view().subrange(0, old.committed_view().len() as int) == old.committed_view()
        &&& bs == screen_diff(base, added + new.screen()).0
        &&& out == screen_diff(base, added + new.screen()).1
        &&& bs <= base.len()
        &&& base.subrange(0, base.len() - bs) + out == added + new.screen()
        &&& (added.len() > 0 <==> replay_vcv_split(old, ch))
        &&& replay_vcv_split(old, ch) ==> {
            let k = split_point(keys);
            &&& new.raw_keys() == keys.subrange(k, keys.len() as int)
            &&& added == render_fresh(InputMethod::Telex, keys.subrange(0, k))
            &&& new.engine().word() == feed_all(
                m,
                old.engine().quick_start_on(),
                old.engine().quick_telex_on(),
                (Seq::<Syl>::empty(), typed.1, 0),
                new.raw_keys(),
            )
            &&& new.engine().composing() == render_word(m, new.engine().word())
            &&& new.engine().committed_view() == Seq::<char>::empty()
            &&& (new.last_valid(), new.last_valid_len()) == last_valid_after(
                new.raw_keys(),
                new.engine().composing(),
                Seq::<char>::empty(),
                0,
            )
        }
        &&& !replay_vcv_split(old, ch) ==> {
            &&& new.raw_keys() == keys
            &&& new.engine().word() == typed
            &&& new.engine().composing() == render_word(m, typed)
            &&& new.engine().committed_view() == old.engine().committed_view()
            &&& (new.last_valid(), new.last_valid_len()) == last_valid_after(
                new.raw_keys(),
                new.engine().composing(),
                if replay_cancelled(old, ch) { Seq::<char>::empty() } else { old.last_valid() },
                if replay_cancelled(old, ch) { 0 } else { old.last_valid_len() },
            )
        }
    }
}

/// Law: whitespace and the punctuation `. , ! ? ; : " ' ( ) [ ] { }` end
/// the word: the character comes back as typed with no backspace, and the
/// next word starts from nothing (no raw key, an empty inner engine, nothing
/// on screen, no committed syllable).
pub proof fn replay_boundary_starts_new_word(old: ReplayEngine, new: ReplayEngine, ch: char, bs: usize, out: Seq<char>)
    requires
        replay_feed_done(old, new, ch, bs, out),
        ch == ' ' || ch == '\t' || ch == '\n' || ch == '\r' || ch == '.' || ch == ',' || ch == '!' || ch == '?'
            || ch == ';' || ch == ':' || ch == '"' || ch == '\'' || ch == '(' || ch == ')' || ch == '[' || ch == ']'
            || ch == '{' || ch == '}',
    ensures
        bs == 0,
        out == seq![ch],
        new.raw_keys() == Seq::<char>::empty(),
        new.engine().entries() == Seq::<Syl>::empty(),
        new.engine().raw_count() == 0,
        new.screen() == Seq::<char>::empty(),
        new.committed_view() == Seq::<char>::empty(),
{
    crate::chars::word_boundary_characters(ch);
}

/// What `ReplayEngine::backspace` does: `old` becomes `new` and the screen
/// edit `(bs, out)` is returned. With no raw key nothing changes. Otherwise
/// the last raw key goes and the edit turns the old screen into the new one:
/// the inner engine's backspace result while keys remain, nothing once the
/// last key is gone (the inner engine is then cleared).
pub open spec fn replay_backspace_done(old: ReplayEngine, new: ReplayEngine, bs: usize, out: Seq<char>) -> bool {
    let e = old.engine();
    &&& new.wf()
    &&& new.committed_view() == old.committed_view()
    &&& new.engine().method() == e.method()
    &&& new.engine().quick_start_on() == e.quick_start_on()
    &&& new.engine().quick_telex_on() == e.quick_telex_on()
    &&& new.engine().modern_on() == e.modern_on()
    &&& old.raw_keys().len() == 0 ==> {
        &&& bs == 0
        &&& out == Seq::<char>::empty()
        &&& new.raw_keys() == old.raw_keys()
        &&& new.screen() == old.screen()
        &&& new.inner_screen() == old.inner_screen()
        &&& new.engine() == e
        &&& new.last_valid() == old.last_valid()
        &&& new.last_valid_len() == old.last_valid_len()
    }
    &&& old.raw_keys().len() > 0 ==> {
        &&& new.raw_keys() == old.raw_keys().drop_last()
        &&& bs == screen_diff(old.screen(), new.screen()).0
        &&& out == screen_diff(old.screen(), new.screen()).1
        &&& bs <= old.screen().len()
        &&& old.screen().subrange(0, old.screen().len() - bs) + out == new.screen()
        &&& new.raw_keys().len() > 0 ==> {
            &&& new.engine().word() == backspace_word(e)
            &&& new.engine().committed_view() == backspace_committed(e)
            &&& new.screen() == new.engine().composing()
            &&& new.screen() == e.backspace_render()
            &&& new.inner_screen() == new.engine().composing()
            &&& (new.last_valid(), new.last_valid_len()) == last_valid_after(
                new.raw_keys(),
                new.engine().composing(),
                Seq::<char>::empty(),
                0,
            )
        }
        &&& new.raw_keys().len() == 0 ==> {
            &&& new.screen() == Seq::<char>::empty()
            &&& new.inner_screen() == Seq::<char>::empty()
            &&& new.engine().composing() == Seq::<char>::empty()
            &&& new.engine().entries() == Seq::<Syl>::empty()
            &&& new.engine().raw_count() == 0
            &&& new.engine().committed_view() == Seq::<char>::empty()
            &&& new.last_valid() == Seq::<char>::empty()
            &&& new.last_valid_len() == 0
            &&& bs == old.screen().len()
            &&& out == Seq::<char>::empty()
        }
    }
}

/// Diff-based IME wrapper with V-C-V syllable auto-commit.
pub struct ReplayEngine {
    inner: UltraFastViEngine,
    /// Raw keystrokes of the composing word.
    raw_buf: ArrayVec<char, 24>,
    /// The composing text currently on screen (may carry one optimistic consonant).
    prev_output: Vec<char>,
    /// What the inner engine last produced (diff baseline after an optimistic step).
    prev_inner_composed: Vec<char>,
    /// Text committed by V-C-V splits.
    committed: Vec<char>,
    /// Raw length at the last valid (non-passthrough) Vietnamese output.
    last_valid_raw_len: usize,
    /// The last valid Vietnamese composing output.
    last_valid_out: Vec<char>,
}

impl ReplayEngine {
    /// The inner engine is well formed and the raw keys fit and hold no
    /// whitespace.
    pub closed spec fn wf(&self) -> bool {
        let raw = raw_buf_items(self.raw_buf);
        &&& self.inner.wf()
        &&& raw.len() <= RAW_BUF_CAPACITY
        &&& no_white_space(raw)
        &&& raw.len() == 0 ==> self.prev_output@.len() == 0
    }

    /// Raw keystrokes of the composing word.
    pub closed spec fn raw_keys(&self) -> Seq<char> {
        raw_buf_items(self.raw_buf)
    }

    /// The composing text on screen.
    pub closed spec fn screen(&self) -> Seq<char> {
        self.prev_output@
    }

    /// The inner engine's last output.
    pub closed spec fn inner_screen(&self) -> Seq<char> {
        self.prev_inner_composed@
    }

    /// The auto-committed text.
    pub closed spec fn committed_view(&self) -> Seq<char> {
        self.committed@
    }

    pub closed spec fn engine(&self) -> UltraFastViEngine {
        self.inner
    }

    /// The last valid Vietnamese composing output.
    pub closed spec fn last_valid(&self) -> Seq<char> {
        self.last_valid_out@
    }

    /// The raw key count at the last valid output.
    pub closed spec fn last_valid_len(&self) -> int {
        self.last_valid_raw_len as int
    }

    /// Whether the screen shows the last valid output with `ch` appended
    /// instead of the engine's word: the word has turned into raw text after
    /// a valid output, `ch` is not a tone key, and it is the single
    /// consonant typed since.
    /// The two wrappers hold the same word: the inner engine's word and
    /// texts, the raw keys, the screen, the committed text and the last
    /// valid output agree (the configuration may differ).
    pub open spec fn same_word(&self, other: &Self) -> bool {
        &&& self.engine().same_word(&other.engine())
        &&& self.raw_keys() == other.raw_keys()
        &&& self.screen() == other.screen()
        &&& self.inner_screen() == other.inner_screen()
        &&& self.committed_view() == other.committed_view()
        &&& self.last_valid() == other.last_valid()
        &&& self.last_valid_len() == other.last_valid_len()
    }

    pub open spec fn optimistic_display(&self, ch: char) -> bool {
        &&& raw_passthrough(self.raw_keys(), self.engine().composing())
        &&& self.last_valid().len() > 0
        &&& !tone_key_char(self.engine().method(), ch)
        &&& single_consonant_appended(self.raw_keys(), self.last_valid_len())
    }

    pub fn new() -> (e: Self)
        ensures
            e.wf(),
            e.raw_keys() == Seq::<char>::empty(),
            e.screen() == Seq::<char>::empty(),
            e.committed_view() == Seq::<char>::empty(),
            e.engine().method() == InputMethod::Telex,
    {
        ReplayEngine {
            inner: UltraFastViEngine::new(),
            raw_buf: raw_buf_new(),
            prev_output: Vec::new(),
            prev_inner_composed: Vec::new(),
            committed: Vec::new(),
            last_valid_raw_len: 0,
            last_valid_out: Vec::new(),
        }
    }

    // ------------------------------------------------------------------
    // Configuration
    // ------------------------------------------------------------------

    pub fn set_input_method(&mut self, method: InputMethod)
        requires
            old(self).wf(),
        ensures
            final(self).wf(),
            final(self).engine().method() == method,
            final(self).same_word(old(self)),
            final(self).engine().quick_start_on() == old(self).engine().quick_start_on(),
            final(self).engine().quick_telex_on() == old(self).engine().quick_telex_on(),
            final(self).engine().modern_on() == old(self).engine().modern_on(),
    {
        self.inner.set_input_method(method);
    }

    pub fn set_quick_start(&mut self, enabled: bool)
        requires
            old(self).wf(),
        ensures
            final(self).wf(),
            final(self).engine().quick_start_on() == enabled,
            final(self).same_word(old(self)),
            final(self).engine().method() == old(self).engine().method(),
            final(self).engine().quick_telex_on() == old(self).engine().quick_telex_on(),
            final(self).engine().modern_on() == old(self).engine().modern_on(),
    {
        self.inner.set_quick_start(enabled);
    }

    pub fn set_quick_telex(&mut self, enabled: bool)
        requires
            old(self).wf(),
        ensures
            final(self).wf(),
            final(self).engine().quick_telex_on() == enabled,
            final(self).same_word(old(self)),
            final(self).engine().method() == old(self).engine().method(),
            final(self).engine().quick_start_on() == old(self).engine().quick_start_on(),
            final(self).engine().modern_on() == old(self).engine().modern_on(),
    {
        self.inner.set_quick_telex(enabled);
    }

    pub fn set_modern_orthography(&mut self, enabled: bool)
        requires
            old(self).wf(),
        ensures
            final(self).wf(),
            final(self).engine().modern_on() == enabled,
            final(self).same_word(old(self)),
            final(self).engine().method() == old(self).engine().method(),
            final(self).engine().quick_start_on() == old(self).engine().quick_start_on(),
            final(self).engine().quick_telex_on() == old(self).engine().quick_telex_on(),
    {
        self.inner.set_modern_orthography(enabled);
    }

    // ------------------------------------------------------------------
    // Core API
    // ------------------------------------------------------------------

    /// Diff mode with 24 raw keys held: the inner engine's word goes to the
    /// committed text and a new word starts with `ch`.
    fn feed_full(&mut self, ch: char) -> (r: (usize, String))
        requires
            old(self).wf(),
            old(self).raw_keys().len() >= RAW_BUF_CAPACITY,
            !word_boundary(ch),
        ensures
            replay_feed_done(*old(self), *final(self), ch, r.0, r.1@),
    {
        let screen_before = copy_chars(self.prev_output.as_slice());
        self.prev_output.clear();
        let prev_composed = self.inner.composing_chars();
        extend_chars(&mut self.committed, prev_composed.as_slice());
        self.inner.clear();
        raw_buf_clear(&mut self.raw_buf);
        self.prev_inner_composed.clear();
        self.last_valid_raw_len = 0;
        self.last_valid_out.clear();
        raw_buf_try_push(&mut self.raw_buf, ch);
        self.inner.feed(ch);
        let new_composed = self.inner.composing_chars();
        let (bs, suffix) = diff_outputs(screen_before.as_slice(), new_composed.as_slice());
        self.prev_output = copy_chars(new_composed.as_slice());
        self.prev_inner_composed = new_composed;
        proof {
            assert(raw_buf_items(self.raw_buf) =~= seq![ch]);
            assert(!white_space(ch));
            assert(self.last_valid_out@ =~= Seq::<char>::empty());
        }
        (bs, string_from_chars(suffix.as_slice()))
    }

    /// First step for a key: records `ch`, types it into the inner engine
    /// and, when it cancelled itself with the key before it, drops that key
    /// from the raw keys too. Returns the inner engine's word.
    fn feed_key(&mut self, ch: char) -> (new_composed: Vec<char>)
        requires
            old(self).wf(),
            old(self).raw_keys().len() < RAW_BUF_CAPACITY,
            !word_boundary(ch),
        ensures
            final(self).wf(),
            final(self).raw_keys() == replay_keys(*old(self), ch),
            final(self).inner.word() == replay_typed(*old(self), ch),
            final(self).inner.composing() == render_word(old(self).inner.method(), replay_typed(*old(self), ch)),
            final(self).inner.method() == old(self).inner.method(),
            final(self).inner.quick_start_on() == old(self).inner.quick_start_on(),
            final(self).inner.quick_telex_on() == old(self).inner.quick_telex_on(),
            final(self).inner.modern_on() == old(self).inner.modern_on(),
            final(self).inner.committed_view() == old(self).inner.committed_view(),
            new_composed@ == final(self).inner.composing(),
            final(self).prev_output == old(self).prev_output,
            final(self).prev_inner_composed == old(self).prev_inner_composed,
            final(self).committed == old(self).committed,
            replay_cancelled(*old(self), ch) ==> final(self).last_valid_out@ == Seq::<char>::empty()
                && final(self).last_valid_raw_len == 0,
            !replay_cancelled(*old(self), ch) ==> final(self).last_valid_out == old(self).last_valid_out
                && final(self).last_valid_raw_len == old(self).last_valid_raw_len,
    {
        let ghost old_raw = raw_buf_items(self.raw_buf);
        let raw_len_before = self.inner.raw_len();
        raw_buf_try_push(&mut self.raw_buf, ch);
        self.inner.feed(ch);
        let new_composed = self.inner.composing_chars();
        let raw_len_after = self.inner.raw_len();
        // A cancel inside the engine ate the new key and one earlier key:
        // drop the earlier key from the raw buffer too.
        let double_cancel_fired = raw_len_after == raw_len_before && !raw_buf_is_empty(&self.raw_buf);
        if double_cancel_fired {
            let last_idx = raw_buf_len(&self.raw_buf) - 1;
            if last_idx >= 1 {
                raw_buf_swap(&mut self.raw_buf, last_idx - 1, last_idx);
                raw_buf_truncate(&mut self.raw_buf, last_idx);
                assert(raw_buf_items(self.raw_buf) =~= old_raw.drop_last().push(ch));
            }
            self.last_valid_raw_len = 0;
            self.last_valid_out.clear();
            assert(self.last_valid_out@ =~= Seq::<char>::empty());
        }
        proof {
            let keys = raw_buf_items(self.raw_buf);
            assert(!white_space(ch));
            assert forall|i: int| 0 <= i < keys.len() implies !white_space(#[trigger] keys[i]) by {
                if i < keys.len() - 1 {
                    assert(keys[i] == old_raw[i]);
                }
            }
        }
        new_composed
    }

    /// V-C-V split at `split`: the raw keys before it are rendered by a fresh
    /// Telex engine and committed, and the word restarts with the keys from
    /// `split` on.
    fn feed_split(&mut self, split: usize) -> (r: (usize, String))
        requires
            old(self).wf(),
            0 < split < old(self).raw_keys().len(),
        ensures
            ({
                let keys = old(self).raw_keys();
                let added = render_fresh(InputMethod::Telex, keys.subrange(0, split as int));
                let w = feed_all(
                    old(self).inner.method(),
                    old(self).inner.quick_start_on(),
                    old(self).inner.quick_telex_on(),
                    (Seq::<Syl>::empty(), old(self).inner.raw_slots(), 0),
                    keys.subrange(split as int, keys.len() as int),
                );
                &&& final(self).wf()
                &&& final(self).inner.method() == old(self).inner.method()
                &&& final(self).inner.quick_start_on() == old(self).inner.quick_start_on()
                &&& final(self).inner.quick_telex_on() == old(self).inner.quick_telex_on()
                &&& final(self).inner.modern_on() == old(self).inner.modern_on()
                &&& added.len() > 0
                &&& final(self).raw_keys() == keys.subrange(split as int, keys.len() as int)
                &&& final(self).committed_view() == old(self).committed_view() + added
                &&& final(self).engine().composing() == render_word(old(self).inner.method(), w)
                &&& final(self).engine().word() == w
                &&& final(self).engine().committed_view() == Seq::<char>::empty()
                &&& final(self).screen() == final(self).engine().composing()
                &&& final(self).inner_screen() == final(self).engine().composing()
                &&& (final(self).last_valid(), final(self).last_valid_len()) == last_valid_after(
                    final(self).raw_keys(),
                    final(self).engine().composing(),
                    Seq::<char>::empty(),
                    0,
                )
                &&& r.0 == screen_diff(old(self).screen(), added + final(self).screen()).0
                &&& r.1@ == screen_diff(old(self).screen(), added + final(self).screen()).1
            }),
    {
        let ghost keys = raw_buf_items(self.raw_buf);
        let raw = raw_buf_as_slice(&self.raw_buf);
        let committed_raw = &raw[0..split];
        assert(committed_raw@ =~= keys.subrange(0, split as int));
        let committed_out = replay_raw_slice(committed_raw);
        proof {
            assert forall|i: int| 0 <= i < committed_raw@.len() implies !white_space(
                #[trigger] committed_raw@[i],
            ) by {
                assert(committed_raw@[i] == keys[i]);
            }
            lemma_render_fresh_nonempty(InputMethod::Telex, committed_raw@);
        }
        let new_syl_raw = raw_buf_from_slice(&raw[split..raw.len()]);
        assert(raw_buf_items(new_syl_raw) =~= keys.subrange(split as int, keys.len() as int));
        extend_chars(&mut self.committed, committed_out.as_slice());
        self.inner.clear();
        self.inner.restart_word(raw_buf_as_slice(&new_syl_raw));
        let new_composed2 = self.inner.composing_chars();
        let mut full_screen = copy_chars(committed_out.as_slice());
        extend_chars(&mut full_screen, new_composed2.as_slice());
        let (bs, suffix) = diff_outputs(self.prev_output.as_slice(), full_screen.as_slice());
        self.raw_buf = new_syl_raw;
        self.prev_output = copy_chars(new_composed2.as_slice());
        self.prev_inner_composed = copy_chars(new_composed2.as_slice());
        let is_new_raw = is_raw_passthrough(raw_buf_as_slice(&self.raw_buf), new_composed2.as_slice());
        if is_new_raw {
            self.last_valid_raw_len = 0;
            self.last_valid_out.clear();
        } else {
            self.last_valid_raw_len = raw_buf_len(&self.raw_buf);
            self.last_valid_out = new_composed2;
        }
        proof {
            let nk = raw_buf_items(self.raw_buf);
            assert forall|i: int| 0 <= i < nk.len() implies !white_space(#[trigger] nk[i]) by {
                assert(nk[i] == keys[split + i]);
            }
            assert(full_screen@ =~= committed_out@ + self.prev_output@);
        }
        (bs, string_from_chars(suffix.as_slice()))
    }

    /// Feed one character and return `(backspace_count, suffix_to_type)`
    /// (see `replay_feed_done`).
    ///
    /// On a word boundary the inner engine, the composing state and the
    /// committed text are cleared and the character is returned as-is with
    /// zero backspaces. Otherwise the pair is the minimal edit
    /// (`screen_diff`) to the new screen: the new composing text, preceded
    /// by the syllable committed during this call when a V-C-V split
    /// (`replay_vcv_split`) happens. The edit starts from the screen, or,
    /// right after an optimistic display that this key does not continue,
    /// from the inner engine's previous output (`diff_baseline`).
    #[verifier::rlimit(100)]
    #[verifier::spinoff_prover]
    pub fn feed(&mut self, ch: char) -> (r: (usize, String))
        requires
            old(self).wf(),
        ensures
            replay_feed_done(*old(self), *final(self), ch, r.0, r.1@),
    {
        if is_word_boundary(ch) {
            self.inner.clear();
            raw_buf_clear(&mut self.raw_buf);
            self.prev_output.clear();
            self.prev_inner_composed.clear();
            self.committed.clear();
            self.last_valid_raw_len = 0;
            self.last_valid_out.clear();
            let mut one: Vec<char> = Vec::new();
            one.push(ch);
            proof {
                assert(one@ =~= seq![ch]);
                assert(raw_buf_items(self.raw_buf) =~= Seq::<char>::empty());
                assert(self.prev_output@ =~= Seq::<char>::empty());
                assert(self.prev_inner_composed@ =~= Seq::<char>::empty());
                assert(self.committed@ =~= Seq::<char>::empty());
            }
            return (0, string_from_chars(one.as_slice()));
        }
        if raw_buf_is_full(&self.raw_buf) {
            // Safety valve: buffer full, commit the word and start fresh.
            return self.feed_full(ch);
        }
        let ghost old_committed = self.committed@;
        let ghost old_raw = raw_buf_items(self.raw_buf);
        let new_composed = self.feed_key(ch);
        let ghost keys = raw_buf_items(self.raw_buf);
        assert(keys == old_raw.push(ch) || (old_raw.len() > 0 && keys == old_raw.drop_last().push(ch)));
        assert(keys.len() > 0 && keys.last() == ch);

        let is_now_raw = is_raw_passthrough(raw_buf_as_slice(&self.raw_buf), new_composed.as_slice());
        if !is_now_raw {
            self.last_valid_raw_len = raw_buf_len(&self.raw_buf);
            self.last_valid_out = copy_chars(new_composed.as_slice());
        }

        // Optimistic display: a single consonant after valid Vietnamese is
        // shown appended to the last valid output.
        let is_optimistic = is_now_raw && self.last_valid_out.len() > 0 && !ch_is_consonant_tone_key(
            ch,
            &self.inner,
        ) && is_single_consonant_appended(raw_buf_as_slice(&self.raw_buf), self.last_valid_raw_len);
        let display_composed = if is_optimistic {
            let mut d = copy_chars(self.last_valid_out.as_slice());
            d.push(ch);
            d
        } else {
            copy_chars(new_composed.as_slice())
        };
        // After an optimistic step, a step that is not optimistic is diffed
        // from the inner engine's previous output rather than the screen.
        let prev_was_optimistic = !chars_equal(self.prev_output.as_slice(), self.prev_inner_composed.as_slice());
        let diff_baseline = if !is_optimistic && prev_was_optimistic {
            copy_chars(self.prev_inner_composed.as_slice())
        } else {
            copy_chars(self.prev_output.as_slice())
        };
        self.prev_inner_composed = copy_chars(new_composed.as_slice());

        // V-C-V boundary: a vowel made the word raw after a valid state.
        let ch_is_vowel = is_vowel_char(ch);
        if is_now_raw && ch_is_vowel && self.last_valid_out.len() > 0 && self.last_valid_raw_len
            < raw_buf_len(&self.raw_buf) {
            let split = find_split_point(raw_buf_as_slice(&self.raw_buf));
            if split > 0 {
                let r = self.feed_split(split);
                proof {
                    let added = self.committed@.subrange(old_committed.len() as int, self.committed@.len() as int);
                    assert(added =~= render_fresh(InputMethod::Telex, keys.subrange(0, split as int)));
                    assert(self.committed@.subrange(0, old_committed.len() as int) =~= old_committed);
                    assert(replay_vcv_split(*old(self), ch));
                    screen_diff_reconstructs(old(self).prev_output@, added + self.prev_output@);
                }
                return r;
            }
        }
        let (bs, suffix) = diff_outputs(diff_baseline.as_slice(), display_composed.as_slice());
        self.prev_output = display_composed;
        proof {
            let added = self.committed@.subrange(old_committed.len() as int, self.committed@.len() as int);
            assert(added =~= Seq::<char>::empty());
            assert(self.committed@.subrange(0, old_committed.len() as int) =~= old_committed);
            assert(added + self.prev_output@ =~= self.prev_output@);
            screen_diff_reconstructs(diff_baseline@, self.prev_output@);
            assert(!replay_vcv_split(*old(self), ch));
        }
        (bs, string_from_chars(suffix.as_slice()))
    }

    /// Handle a physical Backspace key: drop the last raw key and return the
    /// minimal edit from the screen to the new composing text. When the last
    /// raw key goes, the inner engine is cleared and the screen emptied.
    pub fn backspace(&mut self) -> (r: (usize, String))
        requires
            old(self).wf(),
        ensures
            replay_backspace_done(*old(self), *final(self), r.0, r.1@),
    {
        if raw_buf_is_empty(&self.raw_buf) {
            let empty: Vec<char> = Vec::new();
            return (0, string_from_chars(empty.as_slice()));
        }
        let ghost old_raw = raw_buf_items(self.raw_buf);
        raw_buf_pop(&mut self.raw_buf);
        proof {
            let raw = raw_buf_items(self.raw_buf);
            assert forall|i: int| 0 <= i < raw.len() implies !white_space(#[trigger] raw[i]) by {
                assert(raw[i] == old_raw[i]);
            }
        }
        let prev = copy_chars(self.prev_output.as_slice());
        self.prev_output.clear();
        if raw_buf_is_empty(&self.raw_buf) {
            // The word is gone: clear the engine and the whole screen word.
            self.inner.clear();
            self.prev_inner_composed.clear();
            self.last_valid_raw_len = 0;
            self.last_valid_out.clear();
            let empty: Vec<char> = Vec::new();
            let (bs, suffix) = diff_outputs(prev.as_slice(), empty.as_slice());
            proof {
                lemma_common_prefix(prev@, empty@);
                assert(suffix@ =~= Seq::<char>::empty());
                screen_diff_reconstructs(prev@, empty@);
                assert(self.prev_output@ =~= Seq::<char>::empty());
            }
            return (bs, string_from_chars(suffix.as_slice()));
        }
        self.inner.backspace();
        let new_composed = self.inner.composing_chars();
        self.prev_inner_composed = copy_chars(new_composed.as_slice());
        let is_raw = is_raw_passthrough(raw_buf_as_slice(&self.raw_buf), new_composed.as_slice());
        if is_raw {
            self.last_valid_raw_len = 0;
            self.last_valid_out.clear();
        } else {
            self.last_valid_raw_len = raw_buf_len(&self.raw_buf);
            self.last_valid_out = copy_chars(new_composed.as_slice());
        }
        let (bs, suffix) = diff_outputs(prev.as_slice(), new_composed.as_slice());
        self.prev_output = new_composed;
        proof {
            screen_diff_reconstructs(prev@, self.prev_output@);
        }
        (bs, string_from_chars(suffix.as_slice()))
    }

    /// Explicit commit (Enter, click, ...): clears the composing state; the
    /// auto-committed text is kept.
    pub fn commit(&mut self) -> (r: (usize, String))
        requires
            old(self).wf(),
        ensures
            final(self).wf(),
            r.0 == 0,
            r.1@ == Seq::<char>::empty(),
            final(self).raw_keys() == Seq::<char>::empty(),
            final(self).screen() == Seq::<char>::empty(),
            final(self).committed_view() == old(self).committed_view(),
            final(self).engine().method() == old(self).engine().method(),
            final(self).engine().quick_start_on() == old(self).engine().quick_start_on(),
            final(self).engine().quick_telex_on() == old(self).engine().quick_telex_on(),
            final(self).engine().modern_on() == old(self).engine().modern_on(),
            final(self).engine().entries() == Seq::<Syl>::empty(),
            final(self).engine().raw_count() == 0,
            final(self).engine().composing() == Seq::<char>::empty(),
            final(self).engine().committed_view() == Seq::<char>::empty(),
            final(self).inner_screen() == Seq::<char>::empty(),
    {
        self.inner.clear();
        raw_buf_clear(&mut self.raw_buf);
        self.prev_output.clear();
        self.prev_inner_composed.clear();
        self.last_valid_raw_len = 0;
        self.last_valid_out.clear();
        let empty: Vec<char> = Vec::new();
        (0, string_from_chars(empty.as_slice()))
    }

    /// Hard reset (focus lost, app switch, ...): clears everything.
    pub fn reset(&mut self)
        requires
            old(self).wf(),
        ensures
            final(self).wf(),
            final(self).raw_keys() == Seq::<char>::empty(),
            final(self).screen() == Seq::<char>::empty(),
            final(self).committed_view() == Seq::<char>::empty(),
            final(self).engine().method() == old(self).engine().method(),
            final(self).engine().quick_start_on() == old(self).engine().quick_start_on(),
            final(self).engine().quick_telex_on() == old(self).engine().quick_telex_on(),
            final(self).engine().modern_on() == old(self).engine().modern_on(),
            final(self).engine().entries() == Seq::<Syl>::empty(),
            final(self).engine().raw_count() == 0,
            final(self).engine().composing() == Seq::<char>::empty(),
            final(self).engine().committed_view() == Seq::<char>::empty(),
            final(self).inner_screen() == Seq::<char>::empty(),
    {
        self.inner.clear();
        raw_buf_clear(&mut self.raw_buf);
        self.prev_output.clear();
        self.prev_inner_composed.clear();
        self.committed.clear();
        self.last_valid_raw_len = 0;
        self.last_valid_out.clear();
    }

    // ------------------------------------------------------------------
    // Introspection
    // ------------------------------------------------------------------

    /// Whether the inner engine is composing a word.
    pub fn is_composing(&self) -> (r: bool)
        ensures
            r == (self.engine().entries().len() != 0),
    {
        self.inner.is_composing()
    }

    pub fn raw_len(&self) -> (n: usize)
        requires
            self.wf(),
        ensures
            n == self.raw_keys().len(),
            n <= RAW_BUF_CAPACITY,
    {
        raw_buf_len(&self.raw_buf)
    }

    /// The composing text currently visible on screen.
    pub fn current_composing(&self) -> (s: String)
        ensures
            s@ == self.screen(),
    {
        string_from_chars(self.prev_output.as_slice())
    }

    /// The auto-committed text (from V-C-V splits).
    pub fn committed_text(&self) -> (s: String)
        ensures
            s@ == self.committed_view(),
    {
        string_from_chars(self.committed.as_slice())
    }
}

impl Default for ReplayEngine {
    fn default() -> (e: Self)
        ensures
            e.wf(),
            e.raw_keys() == Seq::<char>::empty(),
            e.screen() == Seq::<char>::empty(),
            e.committed_view() == Seq::<char>::empty(),
    {
        Self::new()
    }
}


/// The screen after deleting `bs` trailing characters and typing `out`.
pub open spec fn apply_edit(screen: Seq<char>, bs: int, out: Seq<char>) -> Seq<char> {
    screen.subrange(0, screen.len() - bs) + out
}

/// The screen after applying the edits one after another.
pub open spec fn apply_edits(screen: Seq<char>, edits: Seq<(usize, Seq<char>)>) -> Seq<char>
    decreases edits.len(),
{
    if edits.len() == 0 {
        screen
    } else {
        apply_edit(apply_edits(screen, edits.drop_last()), edits.last().0 as int, edits.last().1)
    }
}

proof fn lemma_backspace_trace(states: Seq<ReplayEngine>, edits: Seq<(usize, Seq<char>)>, n: int)
    requires
        states.len() == edits.len() + 1,
        edits.len() == states[0].raw_keys().len(),
        forall|i: int|
            0 <= i < edits.len() ==> replay_backspace_done(
                #[trigger] states[i],
                states[i + 1],
                edits[i].0,
                edits[i].1,
            ),
        0 <= n <= edits.len(),
    ensures
        apply_edits(states[0].screen(), edits.take(n)) == states[n].screen(),
        states[n].raw_keys().len() == edits.len() - n,
    decreases n,
{
    if n == 0 {
        assert(edits.take(0) =~= Seq::<(usize, Seq<char>)>::empty());
    } else {
        lemma_backspace_trace(states, edits, n - 1);
        assert(edits.take(n).drop_last() =~= edits.take(n - 1));
        assert(edits.take(n).last() == edits[n - 1]);
        assert(replay_backspace_done(states[n - 1], states[n], edits[n - 1].0, edits[n - 1].1));
    }
}

/// Law: from a state holding `k` raw keys, `k` backspaces, their edits
/// applied one after another to the screen, erase the composing text on
/// screen and leave no raw key; one more backspace returns `(0, "")` and
/// changes nothing.
pub proof fn replay_backspaces_clear_screen(states: Seq<ReplayEngine>, edits: Seq<(usize, Seq<char>)>)
    requires
        states.len() == edits.len() + 1,
        states[0].wf(),
        edits.len() == states[0].raw_keys().len(),
        forall|i: int|
            0 <= i < edits.len() ==> replay_backspace_done(
                #[trigger] states[i],
                states[i + 1],
                edits[i].0,
                edits[i].1,
            ),
    ensures
        apply_edits(states[0].screen(), edits) == Seq::<char>::empty(),
        states.last().raw_keys() == Seq::<char>::empty(),
        states.last().screen() == Seq::<char>::empty(),
        forall|next: ReplayEngine, bs: usize, out: Seq<char>|
            replay_backspace_done(states.last(), next, bs, out) ==> bs == 0 && out == Seq::<char>::empty()
                && next.screen() == states.last().screen() && next.raw_keys() == states.last().raw_keys()
                && next.committed_view() == states.last().committed_view(),
{
    let k = edits.len() as int;
    lemma_backspace_trace(states, edits, k);
    assert(edits.take(k) =~= edits);
    if k == 0 {
        assert(states[0].screen() =~= Seq::<char>::empty());
    } else {
        assert(replay_backspace_done(states[k - 1], states[k], edits[k - 1].0, edits[k - 1].1));
    }
    assert(states.last().raw_keys() =~= Seq::<char>::empty());
}

} // verus!
