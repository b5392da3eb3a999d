use vstd::prelude::*;

verus! {

/// Cutoff frequency, in hertz, of the single-pole low-pass design.  The
/// smoothing coefficient is derived from it together with the pipeline
/// sample rate as `alpha = dt / (RC + dt)` with `dt = 1 / SAMPLE_RATE` and
/// `RC = 1 / (2 * pi * CUTOFF_FREQUENCY_HZ)`.
pub const CUTOFF_FREQUENCY_HZ: u32 = 1000;

/// A single-pole (first-order recursive) low-pass filter stage.
///
/// The stage owns its control state: an enable flag and the most recently
/// produced filtered sample, which is the feedback term of the recursion.
/// The feedback sample is carried as its raw 32-bit encoding; the smoothing
/// arithmetic that produces it is floating-point work done by the stage's
/// numeric half outside the verified core, which only ever hands the result
/// back through [`LowPassFilter::store_filtered_value`].
///
/// Invariant kept by every operation here: a disabled stage never mutates
/// its feedback value — it is a transparent pass-through.
#[derive(Clone, Copy, Debug, PartialEq, Eq, Structural)]
pub struct LowPassFilter {
    /// Whether the stage is applied to the stream at all.
    pub active: bool,
    /// The most recently produced filtered sample, as its raw 32-bit
    /// encoding; used as feedback for the next smoothing step.
    pub filtered_value: u32,
}

impl LowPassFilter {
    /// A fresh stage: disabled, with an all-zero feedback sample.
    pub fn new() -> (f: LowPassFilter)
        ensures
            !f.active,
            f.filtered_value == 0,
    {
        LowPassFilter { active: false, filtered_value: 0 }
    }

    /// Pure accessor of the enable flag.
    pub fn filter_active(&self) -> (r: bool)
        ensures
            r == self.active,
    {
        self.active
    }

    /// Enables or disables the stage.  Nothing but the flag moves: the
    /// feedback value is untouched, so toggling between pulls cannot
    /// corrupt the smoothing state.
    pub fn set_active(&mut self, active: bool)
        ensures
            final(self).active == active,
            final(self).filtered_value == old(self).filtered_value,
    {
        self.active = active;
    }

    /// Records the sample just produced as the feedback term for the next
    /// smoothing step.  When the stage is disabled this is a guarded no-op:
    /// an inactive stage must not alter its internal state.
    pub fn store_filtered_value(&mut self, sample: u32)
        ensures
            old(self).active ==> *final(self) == (LowPassFilter {
                active: true,
                filtered_value: sample,
            }),
            !old(self).active ==> *final(self) == *old(self),
    {
        if self.active {
            self.filtered_value = sample;
        }
    }
}

} // verus!
