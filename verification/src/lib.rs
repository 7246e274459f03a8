//! A monophonic software synthesizer core: control-message decoding,
//! oscillator phase tracking, voice selection and the block handoff
//! between the producer and the audio callback.

use vstd::prelude::*;

pub mod handoff;
pub mod midi;
pub mod oscillator;
pub mod producer;
pub mod voice;

verus! {

/// Samples per second assumed by oscillators built without an explicit rate.
pub const SAMPLE_RATE: u32 = 44_100;

} // verus!
