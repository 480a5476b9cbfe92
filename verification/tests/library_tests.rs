use uvie::buffers::{new_out_buffer, new_raw_buffer, CharVec};
use uvie::phonetics::{is_invalid_coda, is_tone_restricted, is_valid_nucleus, is_valid_onset};
use uvie::replay::{ch_is_consonant_tone_key, diff_outputs, find_split_point, is_raw_passthrough, replay_raw_slice};
use uvie::tables::{is_legal_coda, nucleus_tone_target, tone_allowed_for_coda};
use uvie::tone::{map_vowel_with_tone, to_upper};
use uvie::utf8::{decode_utf8_byte, utf8_prefix_len};
use uvie::{InputMethod, ReplayEngine, UltraFastViEngine};

fn chars(s: &str) -> Vec<char> {
    s.chars().collect()
}

fn type_str(e: &mut UltraFastViEngine, s: &str) -> String {
    let mut out = String::new();
    for c in s.chars() {
        out = e.feed(c);
    }
    out
}

#[test]
fn utf8_prefix_len_keeps_whole_characters() {
    assert_eq!(utf8_prefix_len("abc".as_bytes(), 5), 3);
    assert_eq!(utf8_prefix_len("héllo".as_bytes(), 2), 1);
    assert_eq!(utf8_prefix_len("héllo".as_bytes(), 3), 3);
    assert_eq!(utf8_prefix_len("việt".as_bytes(), 3), 2);
    assert_eq!(utf8_prefix_len("việt".as_bytes(), 5), 5);
    assert_eq!(utf8_prefix_len(&[0xff, 0x61], 1), 0);
    assert_eq!(utf8_prefix_len(&[0xff, 0x61], 2), 2);
}

#[test]
fn utf8_decode_byte_by_byte() {
    let mut pending: Vec<u8> = Vec::new();
    assert_eq!(decode_utf8_byte(&mut pending, b'a'), Some('a'));
    assert!(pending.is_empty());
    assert_eq!(decode_utf8_byte(&mut pending, 0xC3), None);
    assert_eq!(pending, vec![0xC3]);
    assert_eq!(decode_utf8_byte(&mut pending, 0xA9), Some('é'));
    assert!(pending.is_empty());
    for b in [0xF0u8, 0x9F, 0x98] {
        assert_eq!(decode_utf8_byte(&mut pending, b), None);
    }
    assert_eq!(decode_utf8_byte(&mut pending, 0x80), Some('😀'));
    assert!(pending.is_empty());
}

#[test]
fn utf8_decode_keeps_incomplete_prefix() {
    let mut pending: Vec<u8> = Vec::new();
    assert_eq!(decode_utf8_byte(&mut pending, 0xE1), None);
    assert_eq!(decode_utf8_byte(&mut pending, 0xBB), None);
    assert_eq!(pending, vec![0xE1, 0xBB]);
    assert_eq!(decode_utf8_byte(&mut pending, 0x87), Some('ệ'));
    assert!(pending.is_empty());
    // 0xE0 0x80 can only start an overlong encoding: nothing completes it.
    assert_eq!(decode_utf8_byte(&mut pending, 0xE0), None);
    assert_eq!(pending, vec![0xE0]);
    assert_eq!(decode_utf8_byte(&mut pending, 0x80), None);
    assert!(pending.is_empty());
}

#[test]
fn utf8_decode_drops_invalid_sequences() {
    let mut pending: Vec<u8> = Vec::new();
    assert_eq!(decode_utf8_byte(&mut pending, 0xFF), None);
    assert!(pending.is_empty());
    assert_eq!(decode_utf8_byte(&mut pending, 0xE1), None);
    assert_eq!(pending, vec![0xE1]);
    // An ASCII byte in the middle of a sequence drops the partial sequence.
    assert_eq!(decode_utf8_byte(&mut pending, b'x'), Some('x'));
    assert!(pending.is_empty());
}

#[test]
fn phonetics_onset_nucleus_coda_rules() {
    assert!(is_valid_onset(&chars("an"), 0));
    assert!(is_valid_onset(&chars("ban"), 1));
    assert!(is_valid_onset(&chars("tra"), 2));
    assert!(!is_valid_onset(&chars("cla"), 2));
    assert!(is_valid_onset(&chars("nghe"), 3));
    assert!(!is_valid_onset(&chars("str"), 3));
    assert!(!is_valid_onset(&chars("spla"), 4));
    assert!(is_valid_nucleus(&chars("toan"), 1, 2));
    assert!(is_valid_nucleus(&chars("teo"), 1, 1));
    assert!(!is_valid_nucleus(&chars("bqo"), 1, 2));
    assert!(is_invalid_coda(&chars("back"), 1));
    assert!(!is_invalid_coda(&chars("bang"), 1));
    assert!(!is_invalid_coda(&chars("ban"), 1));
    assert!(is_tone_restricted(&chars("bat"), 1, 3));
    assert!(is_tone_restricted(&chars("bach"), 1, 4));
    assert!(!is_tone_restricted(&chars("bat"), 1, 1));
    assert!(!is_tone_restricted(&chars("ban"), 1, 3));
}

#[test]
fn tables_and_tones() {
    assert!(is_legal_coda(b"ng"));
    assert!(!is_legal_coda(b"ck"));
    assert!(tone_allowed_for_coda(b"t", 1));
    assert!(!tone_allowed_for_coda(b"t", 3));
    assert_eq!(nucleus_tone_target(&chars("a")), Some(0));
    assert_eq!(nucleus_tone_target(&chars("iê")), Some(1));
    assert_eq!(nucleus_tone_target(&chars("zz")), None);
    assert_eq!(map_vowel_with_tone('a', 1), 'á');
    assert_eq!(map_vowel_with_tone('ơ', 5), 'ợ');
    assert_eq!(map_vowel_with_tone('b', 2), 'b');
    assert_eq!(to_upper('ê'), 'Ê');
    assert_eq!(to_upper('đ'), 'Đ');
}

#[test]
fn char_vec_operations() {
    let mut v: CharVec<3> = CharVec::new();
    assert!(v.is_empty());
    assert!(v.try_push('a'));
    assert!(v.try_push('b'));
    assert!(v.try_push('c'));
    assert!(v.is_full());
    assert!(!v.try_push('d'));
    assert_eq!(v.len(), 3);
    v.swap(0, 2);
    assert_eq!(v.as_slice(), &['c', 'b', 'a']);
    v.truncate(2);
    assert_eq!(v.as_slice(), &['c', 'b']);
    assert_eq!(v.pop(), Some('b'));
    assert_eq!(v.iter().copied().collect::<String>(), "c");
    v.clear();
    assert_eq!(v.pop(), None);
    let w: CharVec<2> = CharVec::from_chars(&['x', 'y', 'z']);
    assert_eq!(&*w, &['x', 'y']);
    assert!(new_out_buffer().is_empty());
    assert!(new_raw_buffer().is_empty());
}

#[test]
fn replay_helpers() {
    assert_eq!(diff_outputs(&chars("tie"), &chars("tiê")), (1, chars("ê")));
    assert_eq!(diff_outputs(&chars("abc"), &chars("abc")), (0, vec![]));
    assert_eq!(find_split_point(&chars("neebo")), 3);
    assert_eq!(find_split_point(&chars("ba")), 0);
    assert!(is_raw_passthrough(&chars("blob"), &chars("blob")));
    assert!(!is_raw_passthrough(&chars("aa"), &chars("â")));
    assert_eq!(replay_raw_slice(&chars("nee")), chars("nê"));
    assert_eq!(replay_raw_slice(&[]), Vec::<char>::new());
}

#[test]
fn same_tone_key_twice_cancels_tone() {
    let mut e = UltraFastViEngine::new();
    assert_eq!(type_str(&mut e, "tes"), "té");
    assert_eq!(e.raw_len(), 3);
    assert_eq!(e.feed('s'), "tes");
    assert_eq!(e.raw_len(), 3);
}

#[test]
fn last_tone_key_replaces_tone() {
    let mut e = UltraFastViEngine::new();
    assert_eq!(type_str(&mut e, "tesf"), "tè");
}

#[test]
fn english_word_shows_raw_keys() {
    let mut e = UltraFastViEngine::new();
    assert_eq!(type_str(&mut e, "clear"), "clear");
    let mut e = UltraFastViEngine::new();
    assert_eq!(type_str(&mut e, "text"), "text");
}

#[test]
fn backspace_rebuilds_from_raw_keys() {
    let mut e = UltraFastViEngine::new();
    type_str(&mut e, "too");
    assert_eq!(e.current_composing(), "tô");
    assert_eq!(e.backspace(), "to");
    assert_eq!(e.backspace(), "t");
    assert_eq!(e.backspace(), "");
    e.feed('a');
    e.feed(' ');
    assert_eq!(e.committed_text(), "a ");
    assert_eq!(e.backspace(), "");
    assert_eq!(e.committed_text(), "a");
}

#[test]
fn whitespace_commits_word_and_itself() {
    let mut e = UltraFastViEngine::new();
    type_str(&mut e, "vieetj");
    assert_eq!(e.feed(' '), "");
    assert_eq!(e.committed_text(), "việt ");
    assert_eq!(e.current_output(), "việt ");
    assert!(!e.is_composing());
}

#[test]
fn syllable_structure_follows_word() {
    let mut e = UltraFastViEngine::new();
    type_str(&mut e, "nghieeng");
    let s = e.syl_structure();
    assert_eq!(s.onset_end, 3);
    assert_eq!(s.nucleus_end, 5);
    assert_eq!(s.onset_kind, uvie::syllable::OnsetKind::Trigraph);
    assert_eq!(s.nucleus_kind, uvie::syllable::NucleusKind::Diphthong);
    e.clear();
    assert_eq!(e.syl_structure().onset_end, 0);
}

#[test]
fn settings_round_trip() {
    let mut e = UltraFastViEngine::default();
    assert_eq!(e.input_method(), InputMethod::Telex);
    e.set_input_method(InputMethod::Vni);
    assert_eq!(e.input_method(), InputMethod::Vni);
    e.set_quick_start(true);
    e.set_quick_telex(true);
    e.set_modern_orthography(true);
    assert!(e.quick_start() && e.quick_telex() && e.modern_orthography());
    assert_eq!(e.mode_classify(b'6'), uvie::modes::IS_MODIFIER);
    assert_eq!(e.mode_classify(b'1'), uvie::modes::IS_TONE_KEY);
    assert_eq!(e.mode_classify(b'a'), uvie::modes::IS_VOWEL);
    assert_eq!(e.mode_classify(b'b'), 0);
}

#[test]
fn rerender_through_fresh_engine() {
    assert_eq!(UltraFastViEngine::rerender_chars(&chars("tooi"), InputMethod::Telex), chars("tôi"));
    assert_eq!(UltraFastViEngine::rerender_chars(&chars("to6i"), InputMethod::Vni), chars("tôi"));
}

#[test]
fn replay_engine_full_buffer_starts_new_word() {
    let mut e = ReplayEngine::new();
    for _ in 0..24 {
        e.feed('b');
    }
    assert_eq!(e.raw_len(), 24);
    let (bs, s) = e.feed('c');
    assert_eq!(bs, 24);
    assert_eq!(s, "c");
    assert_eq!(e.raw_len(), 1);
    assert_eq!(e.committed_text(), "b".repeat(24));
}

#[test]
fn backspace_undoes_last_key() {
    let mut e = UltraFastViEngine::new();
    assert_eq!(type_str(&mut e, "tieen"), "tiên");
    assert_eq!(e.feed('g'), "tiêng");
    assert_eq!(e.backspace(), "tiên");
    assert_eq!(e.raw_len(), 5);
    assert_eq!(e.feed('s'), "tiến");
    assert_eq!(e.backspace(), "tiên");
    assert_eq!(e.raw_len(), 5);
}

#[test]
fn backspace_after_cancelled_tone_replays_raw_keys() {
    // After a cancelled tone key the raw keys no longer replay to the word:
    // Backspace rebuilds the word from the raw keys that remain.
    let mut e = UltraFastViEngine::new();
    assert_eq!(type_str(&mut e, "assb"), "asb");
    assert_eq!(e.backspace(), "á");
}

#[test]
fn tone_key_classification_is_ascii_only() {
    let e = UltraFastViEngine::new();
    for c in ['s', 'f', 'r', 'x', 'j', 'z'] {
        assert!(ch_is_consonant_tone_key(c, &e));
    }
    assert!(!ch_is_consonant_tone_key('b', &e));
    assert!(!ch_is_consonant_tone_key('a', &e));
    // U+0173 has the low byte of 's' but is no tone key.
    assert!(!ch_is_consonant_tone_key('\u{173}', &e));
}

#[test]
fn replay_backspace_after_quick_start_clears_screen() {
    let mut e = ReplayEngine::new();
    e.set_quick_start(true);
    let mut screen: Vec<char> = Vec::new();
    let (bs, out) = e.feed('j');
    for _ in 0..bs {
        screen.pop();
    }
    screen.extend(out.chars());
    assert_eq!(screen.iter().collect::<String>(), "gi");
    assert_eq!(e.raw_len(), 1);
    let (bs, out) = e.backspace();
    for _ in 0..bs {
        screen.pop();
    }
    screen.extend(out.chars());
    assert!(screen.is_empty());
    assert_eq!(e.current_composing(), "");
    assert_eq!(e.raw_len(), 0);
    assert_eq!(e.backspace(), (0, String::new()));
}

#[test]
fn backspace_keeps_capitals() {
    let mut e = UltraFastViEngine::new();
    assert_eq!(type_str(&mut e, "Ac"), "Ac");
    assert_eq!(e.backspace(), "A");
    let mut e = UltraFastViEngine::new();
    assert_eq!(type_str(&mut e, "VIeejt"), "VIệt");
    assert_eq!(e.backspace(), "VIệ");
    assert_eq!(e.feed('t'), "VIệt");
}

#[test]
fn tone_key_completes_ie_nucleus() {
    let mut e = UltraFastViEngine::new();
    e.set_input_method(InputMethod::Telex);
    assert_eq!(e.feed('t'), "t");
    assert_eq!(e.feed('i'), "ti");
    assert_eq!(e.feed('e'), "tie");
    assert_eq!(e.feed('s'), "tiế");
    let mut e = UltraFastViEngine::new();
    assert_eq!(type_str(&mut e, "tiens"), "tiến");
    let mut e = UltraFastViEngine::new();
    assert_eq!(type_str(&mut e, "yeeus"), "yếu");
    let mut e = UltraFastViEngine::new();
    assert_eq!(type_str(&mut e, "yeus"), "yếu");
}
