//! Waveform generators and the constants of the streaming pipeline.

pub mod sine_wave;

use vstd::prelude::*;

verus! {

/// The channel count of the pipeline: every stream is monophonic.
pub const MONO: u16 = 1;

/// The fixed pipeline-wide sample rate, in samples per second.
pub const SAMPLE_RATE: u32 = 48000;

} // verus!
