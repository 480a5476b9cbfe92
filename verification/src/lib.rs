//! Vietnamese input method engine (Telex, VNI) with verified contracts.

pub mod buffers;
pub mod chars;
pub mod diff;
pub mod engine;
pub mod keystep;
pub mod modes;
pub mod phonetics;
pub mod rawbuf;
pub mod replay;
pub mod syllable;
pub mod tables;
pub mod text;
pub mod tone;
pub mod utf8;

pub use crate::engine::UltraFastViEngine;
pub use crate::modes::InputMethod;
pub use crate::replay::ReplayEngine;
