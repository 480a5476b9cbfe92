//! Diff-based input API and V-C-V syllable splitting.

use vstd::prelude::*;
use crate::buffers::{new_out_buffer, OutBuffer};
use crate::engine::{backspace_diff_done, feed_diff_done, UltraFastViEngine};
use crate::keystep::no_white_space;
use crate::chars::word_boundary;
use crate::rawbuf::{raw_buf_clear, raw_buf_items, raw_buf_new, RAW_BUF_CAPACITY};
use arrayvec::ArrayVec;

verus! {

/// Diff-mode state: what is on screen versus what the engine produced.
pub struct DiffState {
    /// Raw keystrokes of the word typed in diff mode.
    pub raw_chars: ArrayVec<char, 24>,
    /// Composing text currently visible on screen.
    pub prev_rendered: OutBuffer,
    /// The engine's own last render (diff baseline).
    pub prev_inner_render: OutBuffer,
    /// Raw char count at the last valid (non-passthrough) render.
    pub last_valid_raw_len: usize,
    /// Coda start at the last valid render.
    pub last_valid_coda_start: usize,
    /// Output at the last valid render.
    pub last_valid_out: OutBuffer,
    /// Text committed by V-C-V splits.
    pub diff_committed: OutBuffer,
    /// The suffix handed back by the last diff call.
    pub diff_suffix: OutBuffer,
}

impl DiffState {
    /// The raw keystroke buffer is consistent and holds no whitespace.
    pub open spec fn wf(&self) -> bool {
        raw_buf_items(self.raw_chars).len() <= RAW_BUF_CAPACITY && no_white_space(raw_buf_items(self.raw_chars))
    }

    pub fn new() -> (d: DiffState)
        ensures
            d.wf(),
            raw_buf_items(d.raw_chars) == Seq::<char>::empty(),
            d.prev_rendered@ == Seq::<char>::empty(),
            d.prev_inner_render@ == Seq::<char>::empty(),
            d.last_valid_raw_len == 0,
            d.last_valid_coda_start == 0,
            d.last_valid_out@ == Seq::<char>::empty(),
            d.diff_committed@ == Seq::<char>::empty(),
            d.diff_suffix@ == Seq::<char>::empty(),
    {
        DiffState {
            raw_chars: raw_buf_new(),
            prev_rendered: new_out_buffer(),
            prev_inner_render: new_out_buffer(),
            last_valid_raw_len: 0,
            last_valid_coda_start: 0,
            last_valid_out: new_out_buffer(),
            diff_committed: new_out_buffer(),
            diff_suffix: new_out_buffer(),
        }
    }

    pub fn clear(&mut self)
        ensures
            final(self).wf(),
            raw_buf_items(final(self).raw_chars) == Seq::<char>::empty(),
            final(self).prev_rendered@ == Seq::<char>::empty(),
            final(self).prev_inner_render@ == Seq::<char>::empty(),
            final(self).last_valid_raw_len == 0,
            final(self).last_valid_coda_start == 0,
            final(self).last_valid_out@ == Seq::<char>::empty(),
            final(self).diff_committed@ == Seq::<char>::empty(),
            final(self).diff_suffix@ == Seq::<char>::empty(),
    {
        raw_buf_clear(&mut self.raw_chars);
        self.prev_rendered.clear();
        self.prev_inner_render.clear();
        self.last_valid_raw_len = 0;
        self.last_valid_coda_start = 0;
        self.last_valid_out.clear();
        self.diff_committed.clear();
        self.diff_suffix.clear();
    }
}

impl Default for DiffState {
    fn default() -> (d: DiffState)
        ensures
            d.wf(),
            raw_buf_items(d.raw_chars) == Seq::<char>::empty(),
            d.prev_rendered@ == Seq::<char>::empty(),
            d.prev_inner_render@ == Seq::<char>::empty(),
            d.last_valid_raw_len == 0,
            d.last_valid_coda_start == 0,
            d.last_valid_out@ == Seq::<char>::empty(),
            d.diff_committed@ == Seq::<char>::empty(),
            d.diff_suffix@ == Seq::<char>::empty(),
    {
        Self::new()
    }
}

/// Deleting `bs` trailing characters of `from` and typing `out` gives `to`.
pub open spec fn edit_reaches(from: Seq<char>, bs: int, out: Seq<char>, to: Seq<char>) -> bool {
    &&& 0 <= bs <= from.len()
    &&& from.subrange(0, from.len() - bs) + out == to
}

/// Diff-mode input API: for each key, the minimal edit of the screen.
///
/// The declarations state what holds of any implementation; for
/// `UltraFastViEngine` the inherent methods of the same names carry the full
/// contracts, and the implementation below forwards to them.
pub trait Diffable: Sized {
    /// The state in which the diff API may be used.
    spec fn diff_ready(&self) -> bool;

    /// The composing text on screen.
    spec fn diff_screen(&self) -> Seq<char>;

    /// The text committed by V-C-V splits.
    spec fn diff_committed(&self) -> Seq<char>;

    /// The raw keys of the word typed in diff mode.
    spec fn diff_raw_keys(&self) -> Seq<char>;

    /// What the engine itself last produced for the word.
    spec fn diff_inner_render(&self) -> Seq<char>;

    /// Feeds one character; returns `(backspace_count, suffix_to_type)`.
    /// A word boundary clears the word and the committed text and comes back
    /// as itself. Any other key ends the raw keys; the committed text only
    /// grows, and the edit turns the screen (or, right after an optimistic
    /// display, the engine's own last render) into what was committed during
    /// the call followed by the new screen; with the raw keys full, it
    /// deletes the whole screen and types the new one.
    fn feed_diff(&mut self, ch: char) -> (r: (usize, String))
        requires
            old(self).diff_ready(),
        ensures
            final(self).diff_ready(),
            word_boundary(ch) ==> {
                &&& r.0 == 0
                &&& r.1@ == seq![ch]
                &&& final(self).diff_screen() == Seq::<char>::empty()
                &&& final(self).diff_committed() == Seq::<char>::empty()
                &&& final(self).diff_raw_keys() == Seq::<char>::empty()
            },
            !word_boundary(ch) ==> {
                let added = final(self).diff_committed().subrange(
                    old(self).diff_committed().len() as int,
                    final(self).diff_committed().len() as int,
                );
                &&& final(self).diff_raw_keys().len() > 0
                &&& final(self).diff_raw_keys().last() == ch
                &&& old(self).diff_committed().len() <= final(self).diff_committed().len()
                &&& final(self).diff_committed().subrange(0, old(self).diff_committed().len() as int)
                    == old(self).diff_committed()
                &&& {
                    ||| edit_reaches(old(self).diff_screen(), r.0 as int, r.1@, added + final(self).diff_screen())
                    ||| edit_reaches(
                        old(self).diff_inner_render(),
                        r.0 as int,
                        r.1@,
                        added + final(self).diff_screen(),
                    )
                    ||| r.0 == old(self).diff_screen().len() && r.1@ == final(self).diff_screen()
                }
            },
    ;

    /// Handles a physical Backspace; returns the screen edit. With no raw
    /// key nothing changes; otherwise the last raw key goes, the committed
    /// text stays, and while keys remain the edit turns the old screen into
    /// the new one.
    fn backspace_diff(&mut self) -> (r: (usize, String))
        requires
            old(self).diff_ready(),
        ensures
            final(self).diff_ready(),
            final(self).diff_committed() == old(self).diff_committed(),
            old(self).diff_raw_keys().len() == 0 ==> {
                &&& r.0 == 0
                &&& r.1@ == Seq::<char>::empty()
                &&& final(self).diff_screen() == old(self).diff_screen()
                &&& final(self).diff_raw_keys() == old(self).diff_raw_keys()
            },
            old(self).diff_raw_keys().len() > 0 ==> {
                &&& final(self).diff_raw_keys() == old(self).diff_raw_keys().drop_last()
                &&& r.0 <= old(self).diff_screen().len()
                &&& final(self).diff_raw_keys().len() > 0 ==> edit_reaches(
                    old(self).diff_screen(),
                    r.0 as int,
                    r.1@,
                    final(self).diff_screen(),
                )
            },
    ;

    /// Explicit commit: nothing to edit, the word is forgotten.
    fn commit_diff(&mut self) -> (r: (usize, String))
        requires
            old(self).diff_ready(),
        ensures
            final(self).diff_ready(),
            r.0 == 0,
            r.1@ == Seq::<char>::empty(),
            final(self).diff_screen() == Seq::<char>::empty(),
            final(self).diff_committed() == old(self).diff_committed(),
    ;

    /// Hard reset: screen state and committed text are cleared.
    fn reset_diff(&mut self)
        requires
            old(self).diff_ready(),
        ensures
            final(self).diff_ready(),
            final(self).diff_screen() == Seq::<char>::empty(),
            final(self).diff_committed() == Seq::<char>::empty(),
    ;

    fn is_composing_diff(&self) -> (r: bool)
        requires
            self.diff_ready(),
    ;

    fn current_composing_diff(&self) -> (s: String)
        ensures
            s@ == self.diff_screen(),
    ;

    fn committed_text_diff(&self) -> (s: String)
        ensures
            s@ == self.diff_committed(),
    ;

    fn prev_inner_render_debug(&self) -> (s: String);

    fn prev_rendered_debug(&self) -> (s: String)
        ensures
            s@ == self.diff_screen(),
    ;
}

impl Diffable for UltraFastViEngine {
    open spec fn diff_ready(&self) -> bool {
        self.wf()
    }

    open spec fn diff_screen(&self) -> Seq<char> {
        self.screen()
    }

    open spec fn diff_committed(&self) -> Seq<char> {
        self.diff_committed_view()
    }

    open spec fn diff_raw_keys(&self) -> Seq<char> {
        self.diff_raw()
    }

    open spec fn diff_inner_render(&self) -> Seq<char> {
        self.inner_screen()
    }

    fn feed_diff(&mut self, ch: char) -> (r: (usize, String))
        ensures
            feed_diff_done(*old(self), *final(self), ch, r.0, r.1@),
    {
        UltraFastViEngine::feed_diff(self, ch)
    }

    fn backspace_diff(&mut self) -> (r: (usize, String))
        ensures
            backspace_diff_done(*old(self), *final(self), r.0, r.1@),
    {
        UltraFastViEngine::backspace_diff(self)
    }

    fn commit_diff(&mut self) -> (r: (usize, String)) {
        UltraFastViEngine::commit_diff(self)
    }

    fn reset_diff(&mut self) {
        UltraFastViEngine::reset_diff(self)
    }

    fn is_composing_diff(&self) -> (r: bool)
        ensures
            r == (self.diff_raw().len() > 0),
    {
        UltraFastViEngine::is_composing_diff(self)
    }

    fn current_composing_diff(&self) -> (s: String) {
        UltraFastViEngine::current_composing_diff(self)
    }

    fn committed_text_diff(&self) -> (s: String) {
        UltraFastViEngine::committed_text_diff(self)
    }

    fn prev_inner_render_debug(&self) -> (s: String)
        ensures
            s@ == self.inner_screen(),
    {
        UltraFastViEngine::prev_inner_render_debug(self)
    }

    fn prev_rendered_debug(&self) -> (s: String) {
        UltraFastViEngine::prev_rendered_debug(self)
    }
}

} // verus!
