//! What one key does to the word being composed.
//!
//! The word is its entries, the raw-key snapshot and the raw-key count; the
//! case each raw key was typed in is recorded beside the snapshot
//! (`feed_caps`, `replay_caps`). Each function here describes one handler of
//! the engine as a function of that state; the engine's handlers are proved
//! to follow them, so `feed` and `backspace` are pinned down by `feed_word`
//! and `replay_from`.

use vstd::prelude::*;
use crate::chars::{ascii_lower, low_byte, white_space};
use crate::engine::{
    carrier, has_literal, lemma_partition_bounds, letters, matches_cluster, min_int, modifier_target_from,
    next_vowel, nucleus_end_of, onset_end_of, passthrough_from, rendered_word, valid_word, RAW_CAPACITY,
};
use crate::modes::{key_class, tone_value, InputMethod, KeyClass};
use crate::tables::{is_gi, is_qu, nucleus_target};
use crate::syllable::{Syl, SYL_CAPACITY};
use crate::tone::{toned, vowel_parts};

verus! {

/// Entries after appending `s`; a full buffer drops it.
pub open spec fn syl_push(b: Seq<Syl>, s: Syl) -> Seq<Syl> {
    if b.len() < SYL_CAPACITY {
        b.push(s)
    } else {
        b
    }
}

/// A plain entry for the key `k`.
pub open spec fn plain(k: u8, caps: bool) -> Syl {
    Syl::spec_plain(k, caps)
}

/// The raw count after the last raw key is forgotten.
pub open spec fn dec(n: int) -> int {
    if n > 0 {
        n - 1
    } else {
        0
    }
}

/// The first entry in `b[i..end]` that carries a tone.
pub open spec fn first_toned(b: Seq<Syl>, i: int, end: int) -> Option<int>
    decreases end - i,
{
    if i >= end || i < 0 || i >= b.len() {
        None
    } else if b[i].tone_set {
        Some(i)
    } else {
        first_toned(b, i + 1, end)
    }
}

/// After the nucleus changed: the first toned nucleus entry loses its tone,
/// which moves to the entry `carrier` names.
pub open spec fn retone(m: InputMethod, b: Seq<Syl>, raw: Seq<u8>) -> Seq<Syl> {
    match first_toned(b, onset_end_of(m, b), nucleus_end_of(m, b)) {
        None => b,
        Some(oc) => {
            let b1 = b.update(oc, Syl { tone: 0, tone_set: false, ..b[oc] });
            match carrier(m, b1, raw) {
                None => b1,
                Some(nc) => b1.update(nc, Syl { tone: b[oc].tone, tone_set: true, ..b1[nc] }),
            }
        },
    }
}

/// Every entry forced literal, its transforms dropped.
pub open spec fn all_literal(b: Seq<Syl>) -> Seq<Syl> {
    Seq::new(
        b.len(),
        |i: int|
            Syl {
                base: b[i].base,
                tone: 0,
                circumflex: false,
                horn: false,
                caps: b[i].caps,
                literal: true,
                tone_set: false,
            },
    )
}

/// A vowel key `k`: a doubled `a`/`e`/`o` puts a circumflex on its target
/// (a third one, on a valid word, turns the whole word literal and forgets
/// the key); any other vowel is appended.
pub open spec fn vowel_step(m: InputMethod, b: Seq<Syl>, raw: Seq<u8>, n: int, k: u8, caps: bool) -> (
    Seq<Syl>,
    int,
) {
    let appended = (retone(m, syl_push(b, plain(k, caps)), raw), n);
    if k == 97 || k == 101 || k == 111 {
        match modifier_target_from(m, b, k, b.len() - 1, false) {
            Some(t) => {
                if b[t].circumflex {
                    if valid_word(m, b, raw) {
                        (all_literal(syl_push(b.update(t, plain(b[t].base, b[t].caps)), plain(k, caps))), dec(n))
                    } else {
                        appended
                    }
                } else {
                    (retone(m, b.update(t, Syl { circumflex: true, ..b[t] }), raw), n)
                }
            },
            None => appended,
        }
    } else {
        appended
    }
}

/// A doubled horn key: the entry at `i` returns to its plain letter, the
/// key is forgotten and a plain `w` is appended.
pub open spec fn cancel_horn_step(b: Seq<Syl>, i: int, n: int, caps: bool) -> (Seq<Syl>, int) {
    (syl_push(b.update(i, plain(b[i].base, b[i].caps)), plain(119, caps)), dec(n))
}

/// The entry a Telex `w` acts on, scanning back from `i`: a `u` (not the
/// glide of `qu`), an `o`, an `a` without circumflex, or an ư made of `w`;
/// the scan skips other vowels and stops at `d` or any other non-vowel.
pub open spec fn w_target(m: InputMethod, b: Seq<Syl>, i: int) -> Option<int>
    decreases i + 1,
{
    if i < 0 || i >= b.len() {
        None
    } else {
        let s = b[i];
        if s.base == 117 {
            if i > 0 && b[i - 1].base == 113 {
                None
            } else {
                Some(i)
            }
        } else if s.base == 111 {
            Some(i)
        } else if s.base == 97 && !s.circumflex {
            Some(i)
        } else if s.base == 97 {
            w_target(m, b, i - 1)
        } else if s.base == 119 && s.horn {
            Some(i)
        } else if s.base == 100 {
            None
        } else if key_class(m, s.base) != KeyClass::Vowel {
            None
        } else {
            w_target(m, b, i - 1)
        }
    }
}

/// The Telex `w` key: horn (breve) on its target, undone by a second `w`;
/// `uo` becomes `ươ` together; with no target, `w` at the start of the
/// nucleus is ư and elsewhere a plain letter.
pub open spec fn w_step(m: InputMethod, b: Seq<Syl>, raw: Seq<u8>, n: int, caps: bool) -> (Seq<Syl>, int) {
    match w_target(m, b, b.len() - 1) {
        Some(j) => {
            let s = b[j];
            if s.horn {
                let c = cancel_horn_step(b, j, n, caps);
                let c2 = if s.base == 111 && j > 0 && c.0[j - 1].base == 117 && c.0[j - 1].horn {
                    c.0.update(j - 1, plain(117, c.0[j - 1].caps))
                } else {
                    c.0
                };
                (retone(m, c2, raw), c.1)
            } else {
                let b1 = b.update(j, Syl { horn: true, ..s });
                let b2 = if s.base == 111 && j > 0 && b1[j - 1].base == 117 && b1[j - 1].is_plain() && !(j - 1 > 0
                    && b1[j - 2].base == 113) {
                    b1.update(j - 1, Syl { horn: true, ..b1[j - 1] })
                } else {
                    b1
                };
                (retone(m, b2, raw), n)
            }
        },
        None => {
            if onset_end_of(m, b) == b.len() {
                (retone(m, syl_push(b, Syl { horn: true, ..plain(119, caps) }), raw), n)
            } else {
                (syl_push(b, plain(119, caps)), n)
            }
        },
    }
}

/// No entry before `j` is a vowel or a `w`.
pub open spec fn onset_only_before(m: InputMethod, b: Seq<Syl>, j: int) -> bool {
    forall|k: int| 0 <= k < j ==> key_class(m, (#[trigger] b[k]).base) != KeyClass::Vowel && b[k].base != 119
}

/// The entry a Telex `d` acts on, scanning back from `i`: an đ, or a `d`
/// that is not literal.
pub open spec fn d_target(b: Seq<Syl>, i: int) -> Option<int>
    decreases i + 1,
{
    if i < 0 || i >= b.len() {
        None
    } else if b[i].base == 100 && (b[i].horn || !b[i].literal) {
        Some(i)
    } else {
        d_target(b, i - 1)
    }
}

/// The Telex `d` key: an onset `d` becomes đ; a third `d` on a valid word
/// turns the word literal and forgets the key; otherwise `d` is appended.
pub open spec fn d_step(m: InputMethod, b: Seq<Syl>, raw: Seq<u8>, n: int, caps: bool) -> (Seq<Syl>, int) {
    let appended = (syl_push(b, plain(100, caps)), n);
    match d_target(b, b.len() - 1) {
        Some(j) => {
            if b[j].horn {
                if valid_word(m, b, raw) {
                    (all_literal(syl_push(b.update(j, plain(100, b[j].caps)), plain(100, caps))), dec(n))
                } else {
                    appended
                }
            } else if onset_only_before(m, b, j) {
                (b.update(j, Syl { base: 100, tone: 0, horn: true, ..b[j] }), n)
            } else {
                appended
            }
        },
        None => appended,
    }
}

/// Whether the VNI mark `key` (`6` circumflex, `7` horn, `8` breve) applies to `s`.
pub open spec fn vni_targeted(key: u8, s: Syl) -> bool {
    if key == 54 {
        s.base == 97 || s.base == 101 || s.base == 111
    } else if key == 55 {
        s.base == 111 || s.base == 117
    } else {
        s.base == 97
    }
}

/// The entry a VNI mark acts on, scanning back over vowels from `i`.
pub open spec fn vni_target(m: InputMethod, b: Seq<Syl>, key: u8, i: int) -> Option<int>
    decreases i + 1,
{
    if i < 0 || i >= b.len() {
        None
    } else if vni_targeted(key, b[i]) && !b[i].literal {
        Some(i)
    } else if key_class(m, b[i].base) != KeyClass::Vowel {
        None
    } else {
        vni_target(m, b, key, i - 1)
    }
}

/// A VNI vowel mark: set on its target, or undone when already there; with
/// no target the digit is appended.
pub open spec fn vni_mark_step(m: InputMethod, b: Seq<Syl>, raw: Seq<u8>, n: int, key: u8) -> (Seq<Syl>, int) {
    match vni_target(m, b, key, b.len() - 1) {
        Some(j) => {
            let s = b[j];
            let has = if key == 54 {
                s.circumflex
            } else {
                s.horn
            };
            let ns = if has {
                plain(s.base, s.caps)
            } else if key == 54 {
                Syl { circumflex: true, ..s }
            } else {
                Syl { horn: true, ..s }
            };
            (retone(m, b.update(j, ns), raw), n)
        },
        None => (syl_push(b, plain(key, false)), n),
    }
}

/// The `d` a VNI `9` acts on, scanning back over vowels from `i`.
pub open spec fn vni_d_target(m: InputMethod, b: Seq<Syl>, i: int) -> Option<int>
    decreases i + 1,
{
    if i < 0 || i >= b.len() {
        None
    } else if b[i].base == 100 && !b[i].literal {
        Some(i)
    } else if key_class(m, b[i].base) != KeyClass::Vowel {
        None
    } else {
        vni_d_target(m, b, i - 1)
    }
}

/// The VNI `9` key: toggles the bar of its `d`; with no target `9` is appended.
pub open spec fn vni_d_step(m: InputMethod, b: Seq<Syl>, n: int) -> (Seq<Syl>, int) {
    match vni_d_target(m, b, b.len() - 1) {
        Some(j) => {
            if b[j].horn {
                (b.update(j, plain(b[j].base, b[j].caps)), n)
            } else {
                (b.update(j, Syl { base: 100, tone: 0, horn: true, ..b[j] }), n)
            }
        },
        None => (syl_push(b, plain(57, false)), n),
    }
}

/// A modifier key, by the key itself.
pub open spec fn modifier_step(m: InputMethod, b: Seq<Syl>, raw: Seq<u8>, n: int, k: u8, caps: bool) -> (
    Seq<Syl>,
    int,
) {
    if k == 119 {
        w_step(m, b, raw, n, caps)
    } else if k == 100 {
        d_step(m, b, raw, n, caps)
    } else if k == 54 || k == 55 || k == 56 {
        vni_mark_step(m, b, raw, n, k)
    } else if k == 57 {
        vni_d_step(m, b, n)
    } else {
        (syl_push(b, plain(k, caps)), n)
    }
}

/// Some entry is an đ.
pub open spec fn has_dd(b: Seq<Syl>) -> bool {
    exists|i: int| 0 <= i < b.len() && (#[trigger] b[i]).base == 100 && b[i].horn
}

/// Entry `j` is a plain `e` right after a plain `i` or `y`: the `iê` / `yê`
/// nucleus typed without its circumflex.
pub open spec fn hat_cond(b: Seq<Syl>, j: int) -> bool {
    &&& 1 <= j < b.len()
    &&& b[j].base == 101
    &&& !b[j].circumflex
    &&& !b[j].horn
    &&& !b[j].literal
    &&& (b[j - 1].base == 105 || b[j - 1].base == 121)
    &&& !b[j - 1].literal
}

/// The last entry at or before `j` that `hat_cond` holds of.
pub open spec fn hat_from(b: Seq<Syl>, j: int) -> Option<int>
    decreases j,
{
    if j < 1 {
        None
    } else if hat_cond(b, j) {
        Some(j)
    } else {
        hat_from(b, j - 1)
    }
}

pub proof fn lemma_hat_from(b: Seq<Syl>, j: int)
    ensures
        hat_from(b, j) matches Some(i) ==> hat_cond(b, i) && i <= j,
    decreases j,
{
    if j >= 1 && !hat_cond(b, j) {
        lemma_hat_from(b, j - 1);
    }
}

/// The entries a tone key works on: an `e` typed without its circumflex
/// after `i` or `y` gets it (`tie` + tone reads `tiê`), when the word is
/// then Vietnamese; otherwise the entries as they are.
#[verifier::opaque]
pub open spec fn with_hat(m: InputMethod, b: Seq<Syl>, raw: Seq<u8>) -> Seq<Syl> {
    match hat_from(b, b.len() - 1) {
        Some(j) => {
            let h = b.update(j, Syl { circumflex: true, ..b[j] });
            if valid_word(m, h, raw) {
                h
            } else {
                b
            }
        },
        None => b,
    }
}

/// `with_hat` changes the entries only to make the word Vietnamese, and only
/// by a circumflex on one `e`.
pub proof fn lemma_with_hat(m: InputMethod, b: Seq<Syl>, raw: Seq<u8>)
    ensures
        !valid_word(m, with_hat(m, b, raw), raw) ==> with_hat(m, b, raw) == b,
        hat_from(b, b.len() - 1) is None ==> with_hat(m, b, raw) == b,
        with_hat(m, b, raw).len() == b.len(),
        b.len() > 0 ==> with_hat(m, b, raw).last().base == b.last().base,
{
    reveal(with_hat);
    lemma_hat_from(b, b.len() - 1);
}

proof fn lemma_with_hat_frame(m: InputMethod, b: Seq<Syl>, ra: Seq<u8>, rb: Seq<u8>)
    requires
        agree_below(ra, rb, b.len() as int),
    ensures
        with_hat(m, b, ra) == with_hat(m, b, rb),
{
    reveal(with_hat);
    lemma_hat_from(b, b.len() - 1);
    if let Some(j) = hat_from(b, b.len() - 1) {
        let h = b.update(j, Syl { circumflex: true, ..b[j] });
        lemma_valid_word_frame(m, h, ra, rb);
    }
}

/// A tone key: on a valid word the tone goes to the carrier (the same tone
/// twice removes it and keeps the second key as a letter, forgetting it); a
/// tone key on an onset-only đ word is swallowed; otherwise (an empty or
/// non-Vietnamese word, or `r` after a cluster head) the key is a letter.
/// Before that, an `e` after `i` or `y` takes its circumflex (`with_hat`).
pub open spec fn tone_step(m: InputMethod, b0: Seq<Syl>, raw: Seq<u8>, n: int, k: u8, caps: bool) -> (
    Seq<Syl>,
    int,
) {
    let tv = tone_value(m, k);
    let b = if b0.len() == 0 || (k == 114 && matches_cluster(b0.last().base)) {
        b0
    } else {
        with_hat(m, b0, raw)
    };
    let appended = (syl_push(b, plain(k, caps)), n);
    if b.len() == 0 {
        appended
    } else if k == 114 && matches_cluster(b.last().base) {
        appended
    } else if !valid_word(m, b, raw) {
        appended
    } else {
        match carrier(m, b, raw) {
            None => {
                if nucleus_end_of(m, b) <= onset_end_of(m, b) && has_dd(b) {
                    (b, dec(n))
                } else {
                    appended
                }
            },
            Some(c) => {
                let e = b[c];
                if e.tone_set && e.tone == tv && !e.literal {
                    (syl_push(b.update(c, Syl { tone: 0, tone_set: false, ..e }), plain(k, caps)), dec(n))
                } else {
                    (b.update(c, Syl { tone: tv, tone_set: true, ..e }), n)
                }
            },
        }
    }
}

/// One raw key handed to its handler by its class.
pub open spec fn process_step(m: InputMethod, b: Seq<Syl>, raw: Seq<u8>, n: int, k: u8, caps: bool) -> (
    Seq<Syl>,
    int,
) {
    match key_class(m, k) {
        KeyClass::ToneKey => tone_step(m, b, raw, n, k, caps),
        KeyClass::Modifier => modifier_step(m, b, raw, n, k, caps),
        KeyClass::Vowel => vowel_step(m, b, raw, n, k, caps),
        KeyClass::Other => (syl_push(b, plain(k, caps)), n),
    }
}

pub proof fn lemma_nucleus_target_bound(n: Seq<char>)
    ensures
        nucleus_target(n) matches Some(t) ==> 0 <= t < n.len(),
{
}

pub proof fn lemma_carrier_bound(m: InputMethod, b: Seq<Syl>, raw: Seq<u8>)
    ensures
        carrier(m, b, raw) matches Some(c) ==> 0 <= c < b.len(),
{
    lemma_partition_bounds(m, b);
    let ns = onset_end_of(m, b);
    let ne = nucleus_end_of(m, b);
    if ns < ne {
        let onset = raw.subrange(0, ns);
        let es = if is_qu(onset) && b[ns].base == 117 && ns + 1 < ne {
            ns + 1
        } else if is_gi(onset) && b[ns].base == 105 && ns + 1 < ne {
            ns + 1
        } else {
            ns
        };
        lemma_nucleus_target_bound(letters(b, es, min_int(ne - es, 3)));
    }
}

pub proof fn lemma_first_toned_bound(b: Seq<Syl>, i: int, end: int)
    ensures
        first_toned(b, i, end) matches Some(j) ==> i <= j < end && 0 <= j < b.len(),
    decreases end - i,
{
    if i < end && 0 <= i < b.len() && !b[i].tone_set {
        lemma_first_toned_bound(b, i + 1, end);
    }
}

pub proof fn lemma_retone_len(m: InputMethod, b: Seq<Syl>, raw: Seq<u8>)
    ensures
        retone(m, b, raw).len() == b.len(),
{
    lemma_first_toned_bound(b, onset_end_of(m, b), nucleus_end_of(m, b));
    match first_toned(b, onset_end_of(m, b), nucleus_end_of(m, b)) {
        None => {},
        Some(oc) => {
            let b1 = b.update(oc, Syl { tone: 0, tone_set: false, ..b[oc] });
            lemma_carrier_bound(m, b1, raw);
        },
    }
}

pub proof fn lemma_w_target_bound(m: InputMethod, b: Seq<Syl>, i: int)
    ensures
        w_target(m, b, i) matches Some(j) ==> 0 <= j <= i && j < b.len(),
    decreases i + 1,
{
    if 0 <= i < b.len() {
        lemma_w_target_bound(m, b, i - 1);
    }
}

pub proof fn lemma_d_target_bound(b: Seq<Syl>, i: int)
    ensures
        d_target(b, i) matches Some(j) ==> 0 <= j <= i && j < b.len(),
    decreases i + 1,
{
    if 0 <= i < b.len() {
        lemma_d_target_bound(b, i - 1);
    }
}

pub proof fn lemma_vni_target_bound(m: InputMethod, b: Seq<Syl>, key: u8, i: int)
    ensures
        vni_target(m, b, key, i) matches Some(j) ==> 0 <= j <= i && j < b.len(),
    decreases i + 1,
{
    if 0 <= i < b.len() {
        lemma_vni_target_bound(m, b, key, i - 1);
    }
}

pub proof fn lemma_vni_d_target_bound(m: InputMethod, b: Seq<Syl>, i: int)
    ensures
        vni_d_target(m, b, i) matches Some(j) ==> 0 <= j <= i && j < b.len(),
    decreases i + 1,
{
    if 0 <= i < b.len() {
        lemma_vni_d_target_bound(m, b, i - 1);
    }
}

pub proof fn lemma_modifier_target_bound(m: InputMethod, b: Seq<Syl>, key: u8, i: int, crossed: bool)
    ensures
        modifier_target_from(m, b, key, i, crossed) matches Some(j) ==> 0 <= j <= i && j < b.len(),
    decreases i + 1,
{
    if 0 <= i < b.len() {
        lemma_modifier_target_bound(m, b, key, i - 1, true);
        lemma_modifier_target_bound(m, b, key, i - 1, false);
    }
}

proof fn lemma_w_step_len(m: InputMethod, b: Seq<Syl>, raw: Seq<u8>, n: int, caps: bool)
    ensures
        b.len() <= w_step(m, b, raw, n, caps).0.len() <= b.len() + 1,
{
    lemma_w_target_bound(m, b, b.len() - 1);
    lemma_retone_len(m, syl_push(b, Syl { horn: true, ..plain(119, caps) }), raw);
    match w_target(m, b, b.len() - 1) {
        Some(j) => {
            let s = b[j];
            let c = cancel_horn_step(b, j, n, caps);
            let c2 = if s.base == 111 && j > 0 && c.0[j - 1].base == 117 && c.0[j - 1].horn {
                c.0.update(j - 1, plain(117, c.0[j - 1].caps))
            } else {
                c.0
            };
            lemma_retone_len(m, c2, raw);
            let b1 = b.update(j, Syl { horn: true, ..s });
            let b2 = if s.base == 111 && j > 0 && b1[j - 1].base == 117 && b1[j - 1].is_plain() && !(j - 1 > 0
                && b1[j - 2].base == 113) {
                b1.update(j - 1, Syl { horn: true, ..b1[j - 1] })
            } else {
                b1
            };
            lemma_retone_len(m, b2, raw);
        },
        None => {},
    }
}

proof fn lemma_vni_mark_step_len(m: InputMethod, b: Seq<Syl>, raw: Seq<u8>, n: int, k: u8)
    ensures
        b.len() <= vni_mark_step(m, b, raw, n, k).0.len() <= b.len() + 1,
{
    lemma_vni_target_bound(m, b, k, b.len() - 1);
    match vni_target(m, b, k, b.len() - 1) {
        Some(j) => {
            let s = b[j];
            let has = if k == 54 {
                s.circumflex
            } else {
                s.horn
            };
            let ns = if has {
                plain(s.base, s.caps)
            } else if k == 54 {
                Syl { circumflex: true, ..s }
            } else {
                Syl { horn: true, ..s }
            };
            lemma_retone_len(m, b.update(j, ns), raw);
        },
        None => {},
    }
}

proof fn lemma_vowel_step_len(m: InputMethod, b: Seq<Syl>, raw: Seq<u8>, n: int, k: u8, caps: bool)
    ensures
        b.len() <= vowel_step(m, b, raw, n, k, caps).0.len() <= b.len() + 1,
{
    lemma_modifier_target_bound(m, b, k, b.len() - 1, false);
    lemma_retone_len(m, syl_push(b, plain(k, caps)), raw);
    match modifier_target_from(m, b, k, b.len() - 1, false) {
        Some(t) => {
            lemma_retone_len(m, b.update(t, Syl { circumflex: true, ..b[t] }), raw);
        },
        None => {},
    }
}

proof fn lemma_tone_step_len(m: InputMethod, b: Seq<Syl>, raw: Seq<u8>, n: int, k: u8, caps: bool)
    ensures
        b.len() <= tone_step(m, b, raw, n, k, caps).0.len() <= b.len() + 1,
{
    lemma_with_hat(m, b, raw);
    lemma_carrier_bound(m, with_hat(m, b, raw), raw);
    lemma_carrier_bound(m, b, raw);
}

/// One entry per keystroke: processing a raw key never removes an entry and
/// adds at most one.
pub proof fn each_key_adds_at_most_one_entry(m: InputMethod, b: Seq<Syl>, raw: Seq<u8>, n: int, k: u8, caps: bool)
    ensures
        b.len() <= process_step(m, b, raw, n, k, caps).0.len() <= b.len() + 1,
{
    lemma_tone_step_len(m, b, raw, n, k, caps);
    lemma_vowel_step_len(m, b, raw, n, k, caps);
    lemma_w_step_len(m, b, raw, n, caps);
    lemma_vni_mark_step_len(m, b, raw, n, k);
    lemma_d_target_bound(b, b.len() - 1);
    lemma_vni_d_target_bound(m, b, b.len() - 1);
}

/// Typing again the tone key of the tone a valid word (with no `e` waiting
/// for its circumflex after `i` or `y`) already carries removes that tone: the carrier loses it, the key stays as a plain letter
/// and leaves the raw keys (`tess` shows `tes`).
pub proof fn same_tone_key_twice_removes_tone(m: InputMethod, b: Seq<Syl>, raw: Seq<u8>, n: int, k: u8, caps: bool)
    requires
        key_class(m, k) == KeyClass::ToneKey,
        0 < b.len() < SYL_CAPACITY,
        !(k == 114 && matches_cluster(b.last().base)),
        hat_from(b, b.len() - 1) is None,
        valid_word(m, b, raw),
        carrier(m, b, raw) matches Some(c) && b[c].tone_set && b[c].tone == tone_value(m, k) && !b[c].literal,
    ensures
        ({
            let c = carrier(m, b, raw)->Some_0;
            let r = process_step(m, b, raw, n, k, caps);
            &&& r.0.len() == b.len() + 1
            &&& !r.0[c].tone_set
            &&& r.0.last() == plain(k, caps)
            &&& forall|i: int| 0 <= i < b.len() && i != c ==> r.0[i] == b[i]
            &&& r.1 == dec(n)
        }),
{
    lemma_with_hat(m, b, raw);
    lemma_carrier_bound(m, b, raw);
}

/// On a valid word with no `e` waiting for its circumflex after `i` or `y`,
/// a tone key whose tone the carrier does not already hold puts that tone on
/// the carrier, replacing any other (the last tone key wins).
pub proof fn last_tone_key_wins(m: InputMethod, b: Seq<Syl>, raw: Seq<u8>, n: int, k: u8, caps: bool)
    requires
        key_class(m, k) == KeyClass::ToneKey,
        0 < b.len(),
        !(k == 114 && matches_cluster(b.last().base)),
        hat_from(b, b.len() - 1) is None,
        valid_word(m, b, raw),
        carrier(m, b, raw) matches Some(c) && !(b[c].tone_set && b[c].tone == tone_value(m, k) && !b[c].literal),
    ensures
        ({
            let c = carrier(m, b, raw)->Some_0;
            let r = process_step(m, b, raw, n, k, caps);
            &&& r.0 == b.update(c, Syl { tone: tone_value(m, k), tone_set: true, ..b[c] })
            &&& r.1 == n
        }),
{
    lemma_with_hat(m, b, raw);
}

/// A tone key completes `iê` / `yê`: when a plain `e` follows `i` or `y`
/// and the word with a circumflex on that `e` is Vietnamese, the tone key
/// puts the circumflex there and the tone on that word's carrier (`ties`
/// shows `tiế`, `quyets` shows `quyết`).
pub proof fn tone_key_completes_ie(m: InputMethod, b: Seq<Syl>, raw: Seq<u8>, n: int, k: u8, caps: bool)
    requires
        key_class(m, k) == KeyClass::ToneKey,
        0 < b.len(),
        !(k == 114 && matches_cluster(b.last().base)),
        hat_from(b, b.len() - 1) matches Some(j) && valid_word(
            m,
            b.update(j, Syl { circumflex: true, ..b[j] }),
            raw,
        ),
    ensures
        ({
            let j = hat_from(b, b.len() - 1)->Some_0;
            let h = b.update(j, Syl { circumflex: true, ..b[j] });
            let r = process_step(m, b, raw, n, k, caps);
            let c = carrier(m, h, raw)->Some_0;
            let toned = h.update(c, Syl { tone: tone_value(m, k), tone_set: true, ..h[c] });
            &&& with_hat(m, b, raw) == h
            &&& carrier(m, h, raw) is Some && !(h[c].tone_set && h[c].tone == tone_value(m, k) && !h[c].literal)
                ==> r.0 == toned && r.1 == n
            &&& r.0.len() >= b.len()
            &&& r.0[j].circumflex
        }),
{
    reveal(with_hat);
    lemma_hat_from(b, b.len() - 1);
    lemma_tone_step_len(m, b, raw, n, k, caps);
    let j = hat_from(b, b.len() - 1)->Some_0;
    let h = b.update(j, Syl { circumflex: true, ..b[j] });
    lemma_carrier_bound(m, h, raw);
}

/// A word state: entries, raw-key snapshot, raw-key count.
pub type Word = (Seq<Syl>, Seq<u8>, int);

/// Records the raw key `k` and processes it; with the snapshot full the key
/// is dropped.
pub open spec fn push_key(m: InputMethod, w: Word, k: u8, caps: bool) -> Word {
    if w.2 >= RAW_CAPACITY {
        w
    } else {
        let raw = w.1.update(w.2, k);
        let r = process_step(m, w.0, raw, w.2 + 1, k, caps);
        (r.0, raw, r.1)
    }
}

/// The expansion of a doubled consonant under quick Telex (`cc` → `ch`, ...).
pub open spec fn quick_telex_pair(c: char) -> Option<(u8, u8)> {
    if c == 'c' {
        Some((99, 104))
    } else if c == 'g' {
        Some((103, 105))
    } else if c == 'k' {
        Some((107, 104))
    } else if c == 'n' {
        Some((110, 103))
    } else if c == 'q' {
        Some((113, 117))
    } else if c == 'p' {
        Some((112, 104))
    } else if c == 't' {
        Some((116, 104))
    } else {
        None
    }
}

/// A non-whitespace character typed into the word: with quick start, `j`,
/// `f` and `w` stand for `gi`, `ph` and `qu`; with quick Telex, a consonant
/// typed twice becomes its digraph; otherwise the lower-cased key is pushed.
pub open spec fn feed_key(m: InputMethod, quick_start: bool, quick_telex: bool, w: Word, key: char) -> Word {
    let lower = ascii_lower(key);
    let caps = key != lower;
    let lb = low_byte(lower);
    if quick_start {
        if lower == 'j' {
            push_key(m, push_key(m, w, 103, false), 105, false)
        } else if lower == 'f' {
            push_key(m, push_key(m, w, 112, false), 104, false)
        } else if lower == 'w' {
            push_key(m, push_key(m, w, 113, false), 117, false)
        } else {
            push_key(m, w, lb, caps)
        }
    } else if quick_telex && w.2 > 0 {
        match quick_telex_pair(lower) {
            Some(p) => {
                if w.1[w.2 - 1] == lb {
                    let w1 = (if w.0.len() > 0 { w.0.drop_last() } else { w.0 }, w.1, w.2 - 1);
                    push_key(m, push_key(m, w1, p.0, false), p.1, false)
                } else {
                    push_key(m, w, lb, caps)
                }
            },
            None => push_key(m, w, lb, caps),
        }
    } else {
        push_key(m, w, lb, caps)
    }
}

/// Backspace's rebuild: the keys `keys[i..target]` replayed onto the word
/// `w`, each in the case recorded for it in `caps` and written back at the
/// current raw count.
pub open spec fn replay_from(m: InputMethod, keys: Seq<u8>, caps: Seq<bool>, target: int, i: int, w: Word) -> Word
    decreases target - i,
{
    if i >= target || i < 0 || w.2 < 0 || w.2 >= RAW_CAPACITY {
        w
    } else {
        let raw = w.1.update(w.2, keys[i]);
        let r = process_step(m, w.0, raw, w.2 + 1, keys[i], caps[i]);
        replay_from(m, keys, caps, target, i + 1, (r.0, raw, r.1))
    }
}

/// The recorded case of each raw slot after the replay of `replay_from`:
/// each replayed key's case is written at the raw count it lands on.
pub open spec fn replay_caps(
    m: InputMethod,
    keys: Seq<u8>,
    caps: Seq<bool>,
    target: int,
    i: int,
    w: Word,
    cs: Seq<bool>,
) -> Seq<bool>
    decreases target - i,
{
    if i >= target || i < 0 || w.2 < 0 || w.2 >= RAW_CAPACITY {
        cs
    } else {
        let raw = w.1.update(w.2, keys[i]);
        let r = process_step(m, w.0, raw, w.2 + 1, keys[i], caps[i]);
        replay_caps(m, keys, caps, target, i + 1, (r.0, raw, r.1), cs.update(w.2, caps[i]))
    }
}

/// The recorded case of each raw slot after pushing a key typed with `caps`
/// onto `w` (as `push_key` records the key itself).
pub open spec fn push_caps(w: Word, cs: Seq<bool>, caps: bool) -> Seq<bool> {
    if w.2 >= RAW_CAPACITY {
        cs
    } else {
        cs.update(w.2, caps)
    }
}

/// The recorded case of each raw slot after typing `key` (as `feed_word`
/// records the keys): expanded keys are recorded in lower case.
pub open spec fn feed_caps(m: InputMethod, quick_start: bool, quick_telex: bool, w: Word, cs: Seq<bool>, key: char) -> Seq<
    bool,
> {
    let lower = ascii_lower(key);
    let caps = key != lower;
    let lb = low_byte(lower);
    if white_space(key) {
        cs
    } else if quick_start && (lower == 'j' || lower == 'f' || lower == 'w') {
        let first: u8 = if lower == 'j' {
            103
        } else if lower == 'f' {
            112
        } else {
            113
        };
        push_caps(push_key(m, w, first, false), push_caps(w, cs, false), false)
    } else if !quick_start && quick_telex && w.2 > 0 && quick_telex_pair(lower) is Some && w.1[w.2 - 1] == lb {
        let p = quick_telex_pair(lower)->Some_0;
        let w1 = (if w.0.len() > 0 { w.0.drop_last() } else { w.0 }, w.1, w.2 - 1);
        push_caps(push_key(m, w1, p.0, false), push_caps(w1, cs, false), false)
    } else {
        push_caps(w, cs, caps)
    }
}

/// Any character typed into the engine: whitespace ends the word (the raw
/// snapshot stays as it was), anything else goes through `feed_key`.
pub open spec fn feed_word(m: InputMethod, quick_start: bool, quick_telex: bool, w: Word, key: char) -> Word {
    if white_space(key) {
        (Seq::empty(), w.1, 0)
    } else {
        feed_key(m, quick_start, quick_telex, w, key)
    }
}

/// The word after typing the characters `cs` one by one.
pub open spec fn feed_all(m: InputMethod, quick_start: bool, quick_telex: bool, w: Word, cs: Seq<char>) -> Word
    decreases cs.len(),
{
    if cs.len() == 0 {
        w
    } else {
        feed_word(m, quick_start, quick_telex, feed_all(m, quick_start, quick_telex, w, cs.drop_last()), cs.last())
    }
}

/// A fresh word: no entries, a zeroed raw snapshot, no raw key.
pub open spec fn fresh_word() -> Word {
    (Seq::empty(), Seq::new(RAW_CAPACITY as nat, |i: int| 0u8), 0)
}

/// What a fresh engine of input method `m` shows after the characters `cs`.
pub open spec fn render_fresh(m: InputMethod, cs: Seq<char>) -> Seq<char> {
    let w = feed_all(m, false, false, fresh_word(), cs);
    rendered_word(m, w.0, w.1, w.2)
}

/// The first key of a word adds exactly one entry and is kept in the raw
/// count; a tone key or a plain consonant there is simply that letter.
pub proof fn first_key_adds_one_entry(m: InputMethod, raw: Seq<u8>, n: int, k: u8, caps: bool)
    ensures
        process_step(m, Seq::empty(), raw, n, k, caps).0.len() == 1,
        process_step(m, Seq::empty(), raw, n, k, caps).1 == n,
        key_class(m, k) == KeyClass::ToneKey || key_class(m, k) == KeyClass::Other ==> process_step(
            m,
            Seq::empty(),
            raw,
            n,
            k,
            caps,
        ).0 == seq![plain(k, caps)],
{
    let b = Seq::<Syl>::empty();
    lemma_partition_bounds(m, b);
    lemma_retone_len(m, syl_push(b, plain(k, caps)), raw);
    lemma_retone_len(m, syl_push(b, Syl { horn: true, ..plain(119, caps) }), raw);
    assert(modifier_target_from(m, b, k, b.len() - 1, false) is None);
    assert(w_target(m, b, b.len() - 1) is None);
    assert(d_target(b, b.len() - 1) is None);
    assert(vni_target(m, b, k, b.len() - 1) is None);
    assert(vni_d_target(m, b, b.len() - 1) is None);
}

proof fn lemma_step_count(m: InputMethod, b: Seq<Syl>, raw: Seq<u8>, n: int, k: u8, caps: bool)
    ensures
        process_step(m, b, raw, n, k, caps).1 == n || process_step(m, b, raw, n, k, caps).1 == dec(n),
{
}

/// No character of `cs` is whitespace.
pub open spec fn no_white_space(cs: Seq<char>) -> bool {
    forall|i: int| 0 <= i < cs.len() ==> !white_space(#[trigger] cs[i])
}

proof fn lemma_feed_all_nonempty(m: InputMethod, cs: Seq<char>)
    requires
        cs.len() > 0,
        no_white_space(cs),
    ensures
        ({
            let w = feed_all(m, false, false, fresh_word(), cs);
            w.0.len() >= 1 && 1 <= w.2 <= RAW_CAPACITY
        }),
    decreases cs.len(),
{
    let prev = cs.drop_last();
    let w0 = feed_all(m, false, false, fresh_word(), prev);
    let key = cs.last();
    assert(!white_space(key));
    let lower = ascii_lower(key);
    let caps = key != lower;
    let lb = low_byte(lower);
    if prev.len() > 0 {
        assert forall|i: int| 0 <= i < prev.len() implies !white_space(#[trigger] prev[i]) by {
            assert(prev[i] == cs[i]);
        }
        lemma_feed_all_nonempty(m, prev);
        if w0.2 < RAW_CAPACITY {
            let raw = w0.1.update(w0.2, lb);
            each_key_adds_at_most_one_entry(m, w0.0, raw, w0.2 + 1, lb, caps);
            lemma_step_count(m, w0.0, raw, w0.2 + 1, lb, caps);
        }
    } else {
        assert(w0 == fresh_word());
        let raw = w0.1.update(w0.2, lb);
        first_key_adds_one_entry(m, raw, w0.2 + 1, lb, caps);
    }
}

/// A fresh engine shows something for any non-empty input without whitespace.
pub proof fn lemma_render_fresh_nonempty(m: InputMethod, cs: Seq<char>)
    requires
        cs.len() > 0,
        no_white_space(cs),
    ensures
        render_fresh(m, cs).len() > 0,
{
    lemma_feed_all_nonempty(m, cs);
    let w = feed_all(m, false, false, fresh_word(), cs);
    if has_literal(w.0) || !valid_word(m, w.0, w.1) {
        assert(passthrough_from(w.0, w.1, w.2, 0, 0).len() > 0);
    } else {
        assert(Seq::new(w.0.len(), |i: int| w.0[i].rendered()).len() > 0);
    }
}

/// `ra` and `rb` agree on their first `l` slots.
pub open spec fn agree_below(ra: Seq<u8>, rb: Seq<u8>, l: int) -> bool {
    &&& ra.len() >= l
    &&& rb.len() >= l
    &&& forall|j: int| 0 <= j < l ==> ra[j] == rb[j]
}

proof fn lemma_valid_word_frame(m: InputMethod, b: Seq<Syl>, ra: Seq<u8>, rb: Seq<u8>)
    requires
        agree_below(ra, rb, b.len() as int),
    ensures
        valid_word(m, b, ra) == valid_word(m, b, rb),
        carrier(m, b, ra) == carrier(m, b, rb),
{
    lemma_partition_bounds(m, b);
    let oe = onset_end_of(m, b);
    assert(ra.subrange(0, oe) =~= rb.subrange(0, oe));
    assert(ra.subrange(0, b.len() as int) =~= rb.subrange(0, b.len() as int));
}

proof fn lemma_retone_frame(m: InputMethod, b: Seq<Syl>, ra: Seq<u8>, rb: Seq<u8>)
    requires
        agree_below(ra, rb, b.len() as int),
    ensures
        retone(m, b, ra) == retone(m, b, rb),
{
    lemma_first_toned_bound(b, onset_end_of(m, b), nucleus_end_of(m, b));
    match first_toned(b, onset_end_of(m, b), nucleus_end_of(m, b)) {
        None => {},
        Some(oc) => {
            let b1 = b.update(oc, Syl { tone: 0, tone_set: false, ..b[oc] });
            lemma_valid_word_frame(m, b1, ra, rb);
        },
    }
}

proof fn lemma_w_step_frame(m: InputMethod, b: Seq<Syl>, ra: Seq<u8>, rb: Seq<u8>, n: int, caps: bool)
    requires
        agree_below(ra, rb, b.len() + 1int),
    ensures
        w_step(m, b, ra, n, caps) == w_step(m, b, rb, n, caps),
{
    lemma_w_target_bound(m, b, b.len() - 1);
    lemma_retone_frame(m, syl_push(b, Syl { horn: true, ..plain(119, caps) }), ra, rb);
    match w_target(m, b, b.len() - 1) {
        Some(j) => {
            let s = b[j];
            let c = cancel_horn_step(b, j, n, caps);
            let c2 = if s.base == 111 && j > 0 && c.0[j - 1].base == 117 && c.0[j - 1].horn {
                c.0.update(j - 1, plain(117, c.0[j - 1].caps))
            } else {
                c.0
            };
            lemma_retone_frame(m, c2, ra, rb);
            let b1 = b.update(j, Syl { horn: true, ..s });
            let b2 = if s.base == 111 && j > 0 && b1[j - 1].base == 117 && b1[j - 1].is_plain() && !(j - 1 > 0
                && b1[j - 2].base == 113) {
                b1.update(j - 1, Syl { horn: true, ..b1[j - 1] })
            } else {
                b1
            };
            lemma_retone_frame(m, b2, ra, rb);
        },
        None => {},
    }
}

proof fn lemma_vni_mark_step_frame(m: InputMethod, b: Seq<Syl>, ra: Seq<u8>, rb: Seq<u8>, n: int, k: u8)
    requires
        agree_below(ra, rb, b.len() as int),
    ensures
        vni_mark_step(m, b, ra, n, k) == vni_mark_step(m, b, rb, n, k),
{
    lemma_vni_target_bound(m, b, k, b.len() - 1);
    match vni_target(m, b, k, b.len() - 1) {
        Some(j) => {
            let s = b[j];
            let has = if k == 54 {
                s.circumflex
            } else {
                s.horn
            };
            let ns = if has {
                plain(s.base, s.caps)
            } else if k == 54 {
                Syl { circumflex: true, ..s }
            } else {
                Syl { horn: true, ..s }
            };
            lemma_retone_frame(m, b.update(j, ns), ra, rb);
        },
        None => {},
    }
}

proof fn lemma_vowel_step_frame(m: InputMethod, b: Seq<Syl>, ra: Seq<u8>, rb: Seq<u8>, n: int, k: u8, caps: bool)
    requires
        agree_below(ra, rb, b.len() + 1int),
    ensures
        vowel_step(m, b, ra, n, k, caps) == vowel_step(m, b, rb, n, k, caps),
{
    lemma_modifier_target_bound(m, b, k, b.len() - 1, false);
    lemma_valid_word_frame(m, b, ra, rb);
    lemma_retone_frame(m, syl_push(b, plain(k, caps)), ra, rb);
    match modifier_target_from(m, b, k, b.len() - 1, false) {
        Some(t) => {
            lemma_retone_frame(m, b.update(t, Syl { circumflex: true, ..b[t] }), ra, rb);
        },
        None => {},
    }
}

/// One key is processed the same way whatever the raw snapshot holds past
/// the entries (and the slot of the key itself).
proof fn lemma_process_step_frame(m: InputMethod, b: Seq<Syl>, ra: Seq<u8>, rb: Seq<u8>, n: int, k: u8, caps: bool)
    requires
        agree_below(ra, rb, b.len() + 1int),
    ensures
        process_step(m, b, ra, n, k, caps) == process_step(m, b, rb, n, k, caps),
{
    lemma_valid_word_frame(m, b, ra, rb);
    lemma_with_hat_frame(m, b, ra, rb);
    lemma_with_hat(m, b, ra);
    lemma_valid_word_frame(m, with_hat(m, b, ra), ra, rb);
    lemma_vowel_step_frame(m, b, ra, rb, n, k, caps);
    lemma_w_step_frame(m, b, ra, rb, n, caps);
    lemma_vni_mark_step_frame(m, b, ra, rb, n, k);
}

proof fn lemma_replay_frame(
    m: InputMethod,
    ka: Seq<u8>,
    kb: Seq<u8>,
    kca: Seq<bool>,
    kcb: Seq<bool>,
    t: int,
    i: int,
    e: Seq<Syl>,
    ra: Seq<u8>,
    rb: Seq<u8>,
    c: int,
)
    requires
        0 <= c <= i <= t <= RAW_CAPACITY,
        e.len() <= i,
        ra.len() == RAW_CAPACITY,
        rb.len() == RAW_CAPACITY,
        ka.len() >= t,
        kb.len() >= t,
        forall|j: int| 0 <= j < t ==> ka[j] == kb[j] && ra[j] == rb[j] && kca[j] == kcb[j],
    ensures
        ({
            let a = replay_from(m, ka, kca, t, i, (e, ra, c));
            let z = replay_from(m, kb, kcb, t, i, (e, rb, c));
            &&& a.0 == z.0
            &&& a.2 == z.2
            &&& a.0.len() <= t
            &&& 0 <= a.2 <= t
            &&& a.1.len() == RAW_CAPACITY
            &&& z.1.len() == RAW_CAPACITY
            &&& forall|j: int| 0 <= j < t ==> a.1[j] == z.1[j]
            &&& forall|j: int| t <= j < RAW_CAPACITY ==> a.1[j] == ra[j] && z.1[j] == rb[j]
        }),
    decreases t - i,
{
    if i < t {
        let rawa = ra.update(c, ka[i]);
        let rawb = rb.update(c, kb[i]);
        assert(agree_below(rawa, rawb, e.len() + 1int));
        lemma_process_step_frame(m, e, rawa, rawb, c + 1, ka[i], kca[i]);
        each_key_adds_at_most_one_entry(m, e, rawa, c + 1, ka[i], kca[i]);
        lemma_step_count(m, e, rawa, c + 1, ka[i], kca[i]);
        let r = process_step(m, e, rawa, c + 1, ka[i], kca[i]);
        assert(r == process_step(m, e, rawb, c + 1, kb[i], kcb[i]));
        assert(0 <= r.1 <= i + 1);
        assert(r.0.len() <= i + 1);
        lemma_replay_frame(m, ka, kb, kca, kcb, t, i + 1, r.0, rawa, rawb, r.1);
        assert(replay_from(m, ka, kca, t, i, (e, ra, c)) == replay_from(m, ka, kca, t, i + 1, (r.0, rawa, r.1)));
        assert(replay_from(m, kb, kcb, t, i, (e, rb, c)) == replay_from(m, kb, kcb, t, i + 1, (r.0, rawb, r.1)));
        assert forall|j: int| t <= j < RAW_CAPACITY implies rawa[j] == ra[j] && rawb[j] == rb[j] by {}
    } else {
        assert(replay_from(m, ka, kca, t, i, (e, ra, c)) == (e, ra, c));
        assert(replay_from(m, kb, kcb, t, i, (e, rb, c)) == (e, rb, c));
    }
}

proof fn lemma_passthrough_frame(b: Seq<Syl>, ra: Seq<u8>, rb: Seq<u8>, len: int, ri: int, bi: int)
    requires
        forall|j: int| 0 <= j < len ==> ra[j] == rb[j],
    ensures
        passthrough_from(b, ra, len, ri, bi) == passthrough_from(b, rb, len, ri, bi),
    decreases len - ri,
{
    if ri < len && ri >= 0 {
        lemma_passthrough_frame(b, ra, rb, len, ri + 1, bi + 1);
        if ri + 2 <= len {
            lemma_passthrough_frame(b, ra, rb, len, ri + 2, bi + 1);
        }
    }
}

proof fn lemma_replay_last_step(m: InputMethod, keys: Seq<u8>, caps: Seq<bool>, t: int, i: int, w: Word)
    requires
        0 <= i < t,
    ensures
        replay_from(m, keys, caps, t, i, w) == ({
            let p = replay_from(m, keys, caps, t - 1, i, w);
            if p.2 < 0 {
                p
            } else {
                push_key(m, p, keys[t - 1], caps[t - 1])
            }
        }),
    decreases t - i,
{
    if w.2 < 0 || w.2 >= RAW_CAPACITY {
        assert(replay_from(m, keys, caps, t, i, w) == w);
        assert(replay_from(m, keys, caps, t - 1, i, w) == w);
    } else {
        let raw = w.1.update(w.2, keys[i]);
        let r = process_step(m, w.0, raw, w.2 + 1, keys[i], caps[i]);
        let w2 = (r.0, raw, r.1);
        assert(replay_from(m, keys, caps, t, i, w) == replay_from(m, keys, caps, t, i + 1, w2));
        if i < t - 1 {
            lemma_replay_last_step(m, keys, caps, t, i + 1, w2);
            assert(replay_from(m, keys, caps, t - 1, i, w) == replay_from(m, keys, caps, t - 1, i + 1, w2));
        } else {
            assert(replay_from(m, keys, caps, t, i + 1, w2) == w2);
            assert(replay_from(m, keys, caps, t - 1, i, w) == w);
            assert(push_key(m, w, keys[t - 1], caps[t - 1]) == w2);
        }
    }
}

/// Backspace then the same key restores the word: in a word that is the
/// replay of its own raw keys (each in its recorded case `cs`), Backspace
/// (which replays all raw keys but the last) followed by typing the deleted
/// key again, in the same case and with no quick expansion, gives back the
/// same word.
pub proof fn retype_after_backspace_restores(
    m: InputMethod,
    quick_start: bool,
    quick_telex: bool,
    w: Word,
    cs: Seq<bool>,
    key: char,
)
    requires
        w.1.len() == RAW_CAPACITY,
        cs.len() == RAW_CAPACITY,
        0 < w.2 <= RAW_CAPACITY,
        w == replay_from(m, w.1, cs, w.2, 0, (Seq::empty(), w.1, 0)),
        !white_space(key),
        low_byte(ascii_lower(key)) == w.1[w.2 - 1],
        (key != ascii_lower(key)) == cs[w.2 - 1],
        !(quick_start && (ascii_lower(key) == 'j' || ascii_lower(key) == 'f' || ascii_lower(key) == 'w')),
        !(quick_telex && quick_telex_pair(ascii_lower(key)) is Some),
    ensures
        feed_word(
            m,
            quick_start,
            quick_telex,
            replay_from(m, w.1, cs, w.2 - 1, 0, (Seq::empty(), w.1, 0)),
            key,
        ) == w,
{
    lemma_replay_last_step(m, w.1, cs, w.2, 0, (Seq::empty(), w.1, 0));
    let back = replay_from(m, w.1, cs, w.2 - 1, 0, (Seq::empty(), w.1, 0));
    lemma_replay_frame(m, w.1, w.1, cs, cs, w.2 - 1, 0, Seq::empty(), w.1, w.1, 0);
    assert(0 <= back.2);
}

/// Backspace undoes a key: in a word that is the replay of its own raw
/// keys (each in its recorded case `cs`), typing a character that the engine
/// records as exactly one more raw key, the earlier keys and their cases
/// left as they were, and then pressing Backspace (which replays all raw
/// keys but the last) gives back the same entries, the same raw count and
/// the same text.
pub proof fn backspace_undoes_key(
    m: InputMethod,
    quick_start: bool,
    quick_telex: bool,
    w: Word,
    cs: Seq<bool>,
    key: char,
)
    requires
        w.1.len() == RAW_CAPACITY,
        cs.len() == RAW_CAPACITY,
        0 <= w.2 < RAW_CAPACITY,
        w == replay_from(m, w.1, cs, w.2, 0, (Seq::empty(), w.1, 0)),
        feed_word(m, quick_start, quick_telex, w, key).2 == w.2 + 1,
        agree_below(feed_word(m, quick_start, quick_telex, w, key).1, w.1, w.2),
        forall|j: int| 0 <= j < w.2 ==> #[trigger] feed_caps(m, quick_start, quick_telex, w, cs, key)[j] == cs[j],
    ensures
        ({
            let typed = feed_word(m, quick_start, quick_telex, w, key);
            let tcs = feed_caps(m, quick_start, quick_telex, w, cs, key);
            let back = replay_from(m, typed.1, tcs, typed.2 - 1, 0, (Seq::empty(), typed.1, 0));
            &&& back.0 == w.0
            &&& back.2 == w.2
            &&& rendered_word(m, back.0, back.1, back.2) == rendered_word(m, w.0, w.1, w.2)
        }),
{
    let typed = feed_word(m, quick_start, quick_telex, w, key);
    let tcs = feed_caps(m, quick_start, quick_telex, w, cs, key);
    let t = w.2;
    assert(typed.1.len() == RAW_CAPACITY);
    lemma_replay_frame(m, typed.1, w.1, tcs, cs, t, 0, Seq::empty(), typed.1, w.1, 0);
    let back = replay_from(m, typed.1, tcs, t, 0, (Seq::empty(), typed.1, 0));
    assert(agree_below(back.1, w.1, w.0.len() as int));
    lemma_valid_word_frame(m, w.0, back.1, w.1);
    lemma_passthrough_frame(w.0, back.1, w.1, t, 0, 0);
}


/// No entry of `b` is a vowel letter (`a e i o u y`) or a `w`, and none
/// carries a tone: the word so far is at most its onset.
pub open spec fn onset_letters_only(b: Seq<Syl>) -> bool {
    forall|i: int|
        0 <= i < b.len() ==> {
            let x = (#[trigger] b[i]).base;
            &&& x != 97 && x != 101 && x != 105 && x != 111 && x != 117 && x != 121
            &&& x != 119
            &&& !b[i].tone_set
        }
}

proof fn lemma_no_vowel_from(m: InputMethod, b: Seq<Syl>, i: int)
    requires
        onset_letters_only(b),
        0 <= i <= b.len(),
    ensures
        next_vowel(m, b, i) == b.len(),
    decreases b.len() - i,
{
    if i < b.len() {
        lemma_no_vowel_from(m, b, i + 1);
    }
}

proof fn lemma_untoned_first_toned(b: Seq<Syl>, i: int, end: int)
    requires
        forall|k: int| 0 <= k < b.len() ==> !(#[trigger] b[k]).tone_set,
    ensures
        first_toned(b, i, end) is None,
    decreases end - i,
{
    if !(i >= end || i < 0 || i >= b.len()) {
        lemma_untoned_first_toned(b, i + 1, end);
    }
}

/// Law: in Telex, a `w` typed when the word holds no vowel and no `w` yet
/// (only its onset, or nothing) adds exactly one entry, the vowel ư (Ư when
/// typed in upper case), and keeps the entries before it and the raw count.
pub proof fn telex_w_after_onset_is_u_horn(b: Seq<Syl>, raw: Seq<u8>, n: int, caps: bool)
    requires
        b.len() < SYL_CAPACITY,
        onset_letters_only(b),
    ensures
        ({
            let r = process_step(InputMethod::Telex, b, raw, n, 119, caps);
            &&& r.0.len() == b.len() + 1
            &&& r.0.subrange(0, b.len() as int) == b
            &&& r.0.last().rendered() == (if caps { 'Ư' } else { 'ư' })
            &&& r.1 == n
        }),
{
    let m = InputMethod::Telex;
    if b.len() > 0 {
        let s = b[b.len() - 1];
        assert(s.base != 97 && s.base != 111 && s.base != 117 && s.base != 119);
    }
    assert(w_target(m, b, b.len() - 1) is None);
    lemma_no_vowel_from(m, b, 0);
    assert(onset_end_of(m, b) == b.len());
    let e = Syl { horn: true, ..plain(119, caps) };
    let b2 = b.push(e);
    assert forall|k: int| 0 <= k < b2.len() implies !(#[trigger] b2[k]).tone_set by {
        if k < b.len() {
            assert(b2[k] == b[k]);
        }
    }
    lemma_untoned_first_toned(b2, onset_end_of(m, b2), nucleus_end_of(m, b2));
    assert(b2.subrange(0, b.len() as int) =~= b);
}


proof fn lemma_retone_keeps_letters(m: InputMethod, b: Seq<Syl>, raw: Seq<u8>)
    ensures
        retone(m, b, raw).len() == b.len(),
        forall|i: int|
            0 <= i < b.len() ==> (#[trigger] retone(m, b, raw)[i]).no_tone_char() == b[i].no_tone_char()
                && retone(m, b, raw)[i].caps == b[i].caps,
{
    lemma_retone_len(m, b, raw);
    lemma_first_toned_bound(b, onset_end_of(m, b), nucleus_end_of(m, b));
    match first_toned(b, onset_end_of(m, b), nucleus_end_of(m, b)) {
        None => {},
        Some(oc) => {
            let b1 = b.update(oc, Syl { tone: 0, tone_set: false, ..b[oc] });
            lemma_carrier_bound(m, b1, raw);
        },
    }
}

/// Law: in Telex, `w` right after a plain `a`, `o` or `u` (not the `u` of
/// `qu`) turns that vowel into ă, ơ or ư, keeps the number of entries and
/// the raw count, and leaves every entry before the vowel's neighbour as it
/// was (`aw` shows `ă`, `ow` shows `ơ`, `uw` shows `ư`).
pub proof fn telex_w_shapes_last_vowel(b: Seq<Syl>, raw: Seq<u8>, n: int, caps: bool)
    requires
        b.len() > 0,
        b.last().base == 97 || b.last().base == 111 || b.last().base == 117,
        !b.last().horn,
        !b.last().circumflex,
        b.last().base == 117 ==> !(b.len() > 1 && b[b.len() - 2].base == 113),
    ensures
        ({
            let r = process_step(InputMethod::Telex, b, raw, n, 119, caps);
            let x = b.last().base;
            &&& r.0.len() == b.len()
            &&& r.1 == n
            &&& r.0.last().no_tone_char() == (if x == 97 {
                'ă'
            } else if x == 111 {
                'ơ'
            } else {
                'ư'
            })
            &&& r.0.last().caps == b.last().caps
            &&& forall|i: int| 0 <= i < b.len() - 2 ==> (#[trigger] r.0[i]).no_tone_char() == b[i].no_tone_char()
        }),
{
    let m = InputMethod::Telex;
    let j = b.len() - 1;
    assert(w_target(m, b, j) == Some(j));
    let s = b[j];
    let b1 = b.update(j, Syl { horn: true, ..s });
    let b2 = if s.base == 111 && j > 0 && b1[j - 1].base == 117 && b1[j - 1].is_plain() && !(j - 1 > 0
        && b1[j - 2].base == 113) {
        b1.update(j - 1, Syl { horn: true, ..b1[j - 1] })
    } else {
        b1
    };
    lemma_retone_keeps_letters(m, b2, raw);
    assert(b2[j].no_tone_char() == (if s.base == 97 { 'ă' } else if s.base == 111 { 'ơ' } else { 'ư' }));
}

/// Law: each tone key puts its own mark on every vowel: in Telex `s f r x
/// j`, in VNI `1 2 3 4 5` give the acute, grave, hook above, tilde and dot
/// below of Unicode.
pub proof fn tone_keys_give_their_marks(c: char)
    requires
        crate::tone::untoned_vowel(c),
    ensures
        vowel_parts(toned(c, tone_value(InputMethod::Telex, 115))).2 == 0x301,
        vowel_parts(toned(c, tone_value(InputMethod::Telex, 102))).2 == 0x300,
        vowel_parts(toned(c, tone_value(InputMethod::Telex, 114))).2 == 0x309,
        vowel_parts(toned(c, tone_value(InputMethod::Telex, 120))).2 == 0x303,
        vowel_parts(toned(c, tone_value(InputMethod::Telex, 106))).2 == 0x323,
        vowel_parts(toned(c, tone_value(InputMethod::Vni, 49))).2 == 0x301,
        vowel_parts(toned(c, tone_value(InputMethod::Vni, 50))).2 == 0x300,
        vowel_parts(toned(c, tone_value(InputMethod::Vni, 51))).2 == 0x309,
        vowel_parts(toned(c, tone_value(InputMethod::Vni, 52))).2 == 0x303,
        vowel_parts(toned(c, tone_value(InputMethod::Vni, 53))).2 == 0x323,
{
    crate::tone::toned_adds_tone_mark(c, 1);
    crate::tone::toned_adds_tone_mark(c, 2);
    crate::tone::toned_adds_tone_mark(c, 3);
    crate::tone::toned_adds_tone_mark(c, 4);
    crate::tone::toned_adds_tone_mark(c, 5);
}


/// Law: in Telex, `d` right after a `d` of the onset (no vowel and no `w`
/// before it) turns that `d` into đ (Đ in upper case) without adding an
/// entry (`dd` shows `đ`), and keeps the raw count.
pub proof fn telex_dd_is_d_stroke(b: Seq<Syl>, raw: Seq<u8>, n: int, caps: bool)
    requires
        b.len() > 0,
        onset_letters_only(b.drop_last()),
        b.last().base == 100,
        !b.last().horn,
        !b.last().literal,
        !b.last().tone_set,
    ensures
        ({
            let r = process_step(InputMethod::Telex, b, raw, n, 100, caps);
            &&& r.0.len() == b.len()
            &&& r.1 == n
            &&& r.0.drop_last() == b.drop_last()
            &&& r.0.last().no_tone_char() == 'đ'
            &&& r.0.last().rendered() == (if b.last().caps { 'Đ' } else { 'đ' })
        }),
{
    let m = InputMethod::Telex;
    let j = b.len() - 1;
    assert(d_target(b, j) == Some(j));
    assert forall|k: int| 0 <= k < j implies key_class(m, (#[trigger] b[k]).base) != KeyClass::Vowel
        && b[k].base != 119 by {
        assert(b[k] == b.drop_last()[k]);
    }
    assert(onset_only_before(m, b, j));
    let r = process_step(m, b, raw, n, 100, caps);
    assert(r.0.drop_last() =~= b.drop_last());
}


/// Law: typing `a`, `e` or `o` right after the same plain vowel (in either
/// method) puts a circumflex on it without adding an entry (`aa` shows
/// `â`, `ee` shows `ê`, `oo` shows `ô`), and keeps the raw count.
pub proof fn doubled_vowel_takes_circumflex(m: InputMethod, b: Seq<Syl>, raw: Seq<u8>, n: int, k: u8, caps: bool)
    requires
        k == 97 || k == 101 || k == 111,
        b.len() > 0,
        b.last().base == k,
        !b.last().literal,
        !b.last().horn,
        !b.last().circumflex,
        !b.last().tone_set,
    ensures
        ({
            let r = process_step(m, b, raw, n, k, caps);
            &&& r.0.len() == b.len()
            &&& r.1 == n
            &&& r.0.last().no_tone_char() == (if k == 97 {
                'â'
            } else if k == 101 {
                'ê'
            } else {
                'ô'
            })
            &&& r.0.last().caps == b.last().caps
            &&& forall|i: int| 0 <= i < b.len() - 1 ==> (#[trigger] r.0[i]).no_tone_char() == b[i].no_tone_char()
        }),
{
    let j = b.len() - 1;
    assert(modifier_target_from(m, b, k, j, false) == Some(j));
    let b1 = b.update(j, Syl { circumflex: true, ..b[j] });
    lemma_retone_keeps_letters(m, b1, raw);
}

} // verus!
