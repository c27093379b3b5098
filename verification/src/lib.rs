//! Verified core of a REAPER scripting toolkit: the raw take-MIDI
//! format, MIDI message types, and the small value types around them.
#![allow(unused_imports)]

use vstd::prelude::*;

pub mod bytes;
pub mod midi_shape;
pub mod midi_message;
pub mod midi_event;
pub mod midi_raw;
pub mod midi_filter;
pub mod midi_notes;
pub mod midi_flatten;
pub mod midi_laws;
pub mod midi_whole;
pub mod misc_enums;
pub mod midi_text;
pub mod misc_types;
pub mod send;
pub mod take;
pub mod track;
pub mod item;
pub mod envelope;
pub mod control_surface;
pub mod source;
pub mod source_offset;
pub mod errors;
pub mod color;
pub mod utils;
pub mod keys;
pub mod reaper;
pub mod marker;
pub mod render;

verus! {
} // verus!
