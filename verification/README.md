# uvie

A Vietnamese input method engine (Telex and VNI) whose behaviour is stated in
Verus contracts and proved.

Each keystroke updates a per-character state buffer; the raw keys of the word
are validated against positive syllable tables (legal onsets, nuclei, codas
and tone/coda combinations), so a word that is not Vietnamese shows the keys
as typed. A diff API reports, per key, how many characters to delete on
screen and what to type after them, and splits a second syllable off the
word when a vowel follows a consonant after a valid syllable.

## Layout

- `src/keystep.rs`: the model of one keystroke (what each handler does to the
  entries and raw keys) and the laws proved of it.
- `src/engine.rs`: `UltraFastViEngine`; its handlers are proved to follow the
  model, so `feed`, `backspace` and the diff-mode calls, down to when and
  where a second syllable is split off, are pinned down by it.
- `src/diff.rs`: the diff-mode state and the `Diffable` trait.
- `src/replay.rs`: `ReplayEngine`, a diff wrapper around a separate engine,
  the screen diff and its reconstruction law.
- `src/tables.rs`, `src/phonetics.rs`: syllable tables and spelling checks.
- `src/syllable.rs`, `src/tone.rs`, `src/modes.rs`, `src/chars.rs`: entries,
  tone marks, key classes, character helpers.
- `src/buffers.rs`: a fixed-capacity character buffer.
- `src/rawbuf.rs`: the replay engine's `arrayvec` buffer behind trusted
  wrappers.
- `src/utf8.rs`, `src/text.rs`: UTF-8 assembly and output cutting; strings.
- `app/lib.rs`: the C API (opaque handle, locking, raw buffers).
- `tests/`: behaviour tests.
