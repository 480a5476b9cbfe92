use uvie::diff::Diffable;
use uvie::{InputMethod, UltraFastViEngine};

fn feed_seq(e: &mut UltraFastViEngine, s: &str) -> Vec<(usize, String)> {
    s.chars().map(|c| e.feed_diff(c)).collect()
}

fn pair(bs: usize, s: &str) -> (usize, String) {
    (bs, s.to_string())
}

#[test]
fn diff_mode_viet_edits() {
    let mut e = UltraFastViEngine::new();
    let got = feed_seq(&mut e, "vieejt");
    assert_eq!(
        got,
        vec![pair(0, "v"), pair(0, "i"), pair(0, "e"), pair(1, "ê"), pair(1, "ệ"), pair(0, "t")]
    );
    assert_eq!(e.current_composing_diff(), "việt");
    assert_eq!(e.prev_rendered_debug(), "việt");
    assert_eq!(e.prev_inner_render_debug(), "việt");
    assert!(e.is_composing_diff());
    assert_eq!(e.committed_text_diff(), "");
}

#[test]
fn diff_mode_free_style_tone() {
    let mut e = UltraFastViEngine::new();
    let got = feed_seq(&mut e, "tieengs");
    assert_eq!(got.last().unwrap(), &pair(3, "ếng"));
    assert_eq!(e.current_composing_diff(), "tiếng");
}

#[test]
fn diff_mode_vcv_split_commits_first_syllable() {
    let mut e = UltraFastViEngine::new();
    let got = feed_seq(&mut e, "neebo");
    assert_eq!(got[3], pair(0, "b"));
    assert_eq!(got[4], pair(0, "o"));
    assert_eq!(e.committed_text_diff(), "nê");
    assert_eq!(e.current_composing_diff(), "bo");
    assert_eq!(e.feed_diff('o'), pair(1, "ô"));
    assert_eq!(e.current_composing_diff(), "bô");
    assert_eq!(e.committed_text_diff(), "nê");
}

#[test]
fn diff_mode_double_tone_key_cancels() {
    let mut e = UltraFastViEngine::new();
    let got = feed_seq(&mut e, "ass");
    assert_eq!(got, vec![pair(0, "a"), pair(1, "á"), pair(1, "as")]);
    assert_eq!(e.current_composing_diff(), "as");
}

#[test]
fn diff_mode_word_boundary_returns_char() {
    let mut e = UltraFastViEngine::new();
    feed_seq(&mut e, "neebo");
    assert_eq!(e.feed_diff(' '), pair(0, " "));
    assert!(!e.is_composing_diff());
    assert_eq!(e.current_composing_diff(), "");
    assert_eq!(e.committed_text_diff(), "");
    assert_eq!(e.feed_diff('.'), pair(0, "."));
}

#[test]
fn diff_mode_backspace_replays() {
    let mut e = UltraFastViEngine::new();
    feed_seq(&mut e, "vieet");
    assert_eq!(e.current_composing_diff(), "viêt");
    assert_eq!(e.backspace_diff(), pair(1, ""));
    assert_eq!(e.current_composing_diff(), "viê");
    assert_eq!(e.backspace_diff(), pair(1, "e"));
    assert_eq!(e.current_composing_diff(), "vie");
}

#[test]
fn diff_mode_backspace_to_empty() {
    let mut e = UltraFastViEngine::new();
    e.feed_diff('a');
    assert_eq!(e.backspace_diff(), pair(1, ""));
    assert!(!e.is_composing_diff());
    assert_eq!(e.backspace_diff(), pair(0, ""));
}

#[test]
fn diff_mode_backspace_stops_at_committed_text() {
    let mut e = UltraFastViEngine::new();
    feed_seq(&mut e, "neebo");
    assert_eq!(e.backspace_diff(), pair(1, ""));
    assert_eq!(e.current_composing_diff(), "b");
    assert_eq!(e.backspace_diff(), pair(1, ""));
    assert_eq!(e.current_composing_diff(), "");
    // No raw key left: nothing changes, the committed syllable stays.
    assert_eq!(e.backspace_diff(), pair(0, ""));
    assert_eq!(e.committed_text_diff(), "nê");
    assert_eq!(e.current_composing_diff(), "");
    assert!(!e.is_composing_diff());
}

#[test]
fn diff_mode_commit_keeps_committed_text() {
    let mut e = UltraFastViEngine::new();
    feed_seq(&mut e, "neebo");
    assert_eq!(e.commit_diff(), pair(0, ""));
    assert!(!e.is_composing_diff());
    assert_eq!(e.current_composing_diff(), "");
    assert_eq!(e.committed_text_diff(), "nê");
    assert_eq!(e.current_composing(), "");
}

#[test]
fn diff_mode_reset_clears_everything() {
    let mut e = UltraFastViEngine::new();
    feed_seq(&mut e, "neebo");
    e.reset_diff();
    assert!(!e.is_composing_diff());
    assert_eq!(e.current_composing_diff(), "");
    assert_eq!(e.committed_text_diff(), "");
}

#[test]
fn diff_mode_vni() {
    let mut e = UltraFastViEngine::new();
    e.set_input_method(InputMethod::Vni);
    let got = feed_seq(&mut e, "vie65t");
    assert_eq!(got[3], pair(1, "ê"));
    assert_eq!(got[4], pair(1, "ệ"));
    assert_eq!(e.current_composing_diff(), "việt");
}

#[test]
fn diff_mode_full_buffer_starts_new_word() {
    let mut e = UltraFastViEngine::new();
    for _ in 0..24 {
        e.feed_diff('b');
    }
    assert_eq!(e.feed_diff('c'), pair(24, "c"));
    assert_eq!(e.current_composing_diff(), "c");
    assert_eq!(e.committed_text_diff(), "b".repeat(24));
}

#[test]
fn diff_mode_through_trait() {
    let mut e = UltraFastViEngine::default();
    assert_eq!(Diffable::feed_diff(&mut e, 'a'), pair(0, "a"));
    assert_eq!(Diffable::feed_diff(&mut e, 'a'), pair(1, "â"));
    assert!(Diffable::is_composing_diff(&e));
    assert_eq!(Diffable::current_composing_diff(&e), "â");
    assert_eq!(Diffable::prev_rendered_debug(&e), "â");
    assert_eq!(Diffable::prev_inner_render_debug(&e), "â");
    assert_eq!(Diffable::backspace_diff(&mut e), pair(1, "a"));
    assert_eq!(Diffable::commit_diff(&mut e), pair(0, ""));
    Diffable::reset_diff(&mut e);
    assert_eq!(Diffable::committed_text_diff(&e), "");
}

#[test]
fn diff_mode_screen_reconstruction() {
    // Applying each (backspaces, suffix) to a simulated screen keeps the
    // screen equal to committed-by-split text plus the composing text.
    let mut e = UltraFastViEngine::new();
    let mut screen: Vec<char> = Vec::new();
    let mut committed_len = 0usize;
    for c in "banana".chars() {
        let (bs, suffix) = e.feed_diff(c);
        for _ in 0..bs {
            screen.pop();
        }
        screen.extend(suffix.chars());
        let dc: Vec<char> = e.committed_text_diff().chars().collect();
        let added: String = dc[committed_len..].iter().collect();
        committed_len = dc.len();
        let tail: String = screen[screen.len() - e.current_composing_diff().chars().count()..].iter().collect();
        assert_eq!(tail, e.current_composing_diff());
        assert!(screen.iter().collect::<String>().ends_with(&(added + &e.current_composing_diff())));
    }
    assert_eq!(e.committed_text_diff(), "bân");
    assert_eq!(e.current_composing_diff(), "na");
    assert_eq!(screen.iter().collect::<String>(), "bânna");
}

#[test]
fn diff_mode_optimistic_coda_after_toned_syllable() {
    let mut e = UltraFastViEngine::new();
    feed_seq(&mut e, "tieens");
    assert_eq!(e.current_composing_diff(), "tiến");
    assert_eq!(e.feed_diff('b'), pair(0, "b"));
    assert_eq!(e.current_composing_diff(), "tiếnb");
    assert_eq!(e.prev_inner_render_debug(), "tieensb");
}

#[test]
fn diff_mode_edit_after_optimistic_step_starts_from_engine_render() {
    let mut e = UltraFastViEngine::new();
    feed_seq(&mut e, "tieensb");
    // The next key is not shown optimistically: the edit is taken from the
    // engine's previous render "tieensb", not from the screen "tiếnb".
    assert_eq!(e.feed_diff('c'), pair(0, "c"));
    assert_eq!(e.current_composing_diff(), "tieensbc");
}
