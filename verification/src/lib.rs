//! Verified core of a small monophonic synthesiser.
//!
//! The crate models the signal-generation pipeline of a sine-wave
//! synthesiser: a pitch model that turns a natural note and an octave into
//! an exact frequency, an oscillator that advances sample-indexed logical
//! time and exposes the stream metadata an audio sink needs, and the
//! single-pole low-pass filter stage the oscillator owns.  The state and
//! control logic of the pipeline is verified here; the floating-point
//! waveform arithmetic that consumes this state lives outside the verified
//! core.

pub mod effects;
pub mod music_theory;
pub mod waveforms;
