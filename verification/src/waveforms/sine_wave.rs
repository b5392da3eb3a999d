use crate::effects::low_pass_filter::LowPassFilter;
use crate::music_theory::note::Frequency;
use crate::waveforms::MONO;
use crate::waveforms::SAMPLE_RATE;
use vstd::prelude::*;

verus! {

/// A fixed-frequency sine oscillator.
///
/// The oscillator is time-indexed by a sample counter rather than by wall
/// clock: each pull advances the counter by one (wrapping at the width of
/// `usize`, never failing) and the raw waveform value of the pull is
/// `sin(2 * pi * freq * i / SAMPLE_RATE)` for the reported index `i`.  That
/// sine, and the optional smoothing of the owned [`LowPassFilter`], are
/// floating-point work done outside the verified core; everything the
/// stream's behaviour depends on — the frequency, the counter, and the
/// filter's control state — lives here, so the sequence of pulls is a pure
/// function of the construction frequency and nothing else.
#[derive(Debug, PartialEq, Eq, Structural)]
pub struct SineWave {
    /// The target frequency, fixed at construction.
    pub freq: Frequency,
    /// How many samples have been produced so far; wraps on overflow.
    pub num_sample: usize,
    /// The owned filter stage; starts disabled.
    pub filter: LowPassFilter,
}

/// The exact successor state of one pull: the counter advances by one,
/// wrapping at `usize::MAX`; the frequency and the filter stage are
/// untouched.
pub open spec fn spec_advance(pre: SineWave) -> SineWave {
    SineWave { freq: pre.freq, num_sample: pre.num_sample.wrapping_add(1), filter: pre.filter }
}

/// One pull of the oscillator as a relation: `post` is the state after the
/// pull and `i` is the sample index the pull reports.
pub open spec fn advance_rel(pre: SineWave, post: SineWave, i: usize) -> bool {
    post == spec_advance(pre) && i == post.num_sample
}

/// `emitted` is a sequence of sample indices that some chain of single
/// pulls reports while taking the oscillator from `pre` to `post`, one
/// entry per pull.
pub open spec fn run_rel(pre: SineWave, post: SineWave, emitted: Seq<usize>) -> bool
    decreases emitted.len(),
{
    if emitted.len() == 0 {
        post == pre
    } else {
        exists|mid: SineWave|
            #[trigger] advance_rel(pre, mid, emitted[0]) && run_rel(mid, post, emitted.skip(1))
    }
}

impl SineWave {
    /// Constructs an oscillator for `freq`: the counter starts at zero and
    /// the attached filter stage starts disabled.
    pub fn new(freq: Frequency) -> (s: SineWave)
        ensures
            s.freq == freq,
            s.num_sample == 0,
            !s.filter.active,
            s.filter.filtered_value == 0,
    {
        SineWave { freq, num_sample: 0, filter: LowPassFilter::new() }
    }

    /// Advances logical time by exactly one sample period and returns the
    /// index of the sample to produce.  The counter wraps on overflow
    /// rather than failing; nothing else in the oscillator moves.
    pub fn advance(&mut self) -> (i: usize)
        ensures
            advance_rel(*old(self), *final(self), i),
            final(self).num_sample == old(self).num_sample.wrapping_add(1),
            final(self).freq == old(self).freq,
            final(self).filter == old(self).filter,
            i == final(self).num_sample,
    {
        self.num_sample = self.num_sample.wrapping_add(1);
        self.num_sample
    }

    /// Stream metadata for a sink: the pipeline is monophonic.
    pub fn channels(&self) -> (c: u16)
        ensures
            c == MONO,
            c == 1,
    {
        MONO
    }

    /// Stream metadata for a sink: the fixed pipeline sample rate in hertz.
    pub fn sample_rate(&self) -> (r: u32)
        ensures
            r == SAMPLE_RATE,
    {
        SAMPLE_RATE
    }

    /// Stream metadata for a sink: the oscillator does not batch samples
    /// into frames, so there is no current frame length.
    pub fn current_frame_len(&self) -> (l: Option<usize>)
        ensures
            l is None,
    {
        None
    }
}

/// Determinism of a single pull: from one state, a pull has exactly one
/// possible successor state and reports exactly one possible sample index.
pub proof fn lemma_advance_deterministic(
    pre: SineWave,
    post1: SineWave,
    i1: usize,
    post2: SineWave,
    i2: usize,
)
    requires
        advance_rel(pre, post1, i1),
        advance_rel(pre, post2, i2),
    ensures
        post1 == post2,
        i1 == i2,
{
}

/// Determinism of the whole stream: two oscillators that start in the same
/// state and are pulled the same number of times report identical index
/// sequences and end in identical states — there is no hidden state, so two
/// oscillators constructed with the same frequency and driven in lockstep
/// produce the same samples.
pub proof fn lemma_stream_deterministic(
    pre: SineWave,
    post1: SineWave,
    e1: Seq<usize>,
    post2: SineWave,
    e2: Seq<usize>,
)
    requires
        run_rel(pre, post1, e1),
        run_rel(pre, post2, e2),
        e1.len() == e2.len(),
    ensures
        e1 == e2,
        post1 == post2,
    decreases e1.len(),
{
    if e1.len() == 0 {
        assert(e1 =~= e2);
    } else {
        let mid1 = choose|mid: SineWave|
            #[trigger] advance_rel(pre, mid, e1[0]) && run_rel(mid, post1, e1.skip(1));
        let mid2 = choose|mid: SineWave|
            #[trigger] advance_rel(pre, mid, e2[0]) && run_rel(mid, post2, e2.skip(1));
        lemma_advance_deterministic(pre, mid1, e1[0], mid2, e2[0]);
        lemma_stream_deterministic(mid1, post1, e1.skip(1), post2, e2.skip(1));
        assert forall|j: int| 0 <= j < e1.len() implies e1[j] == e2[j] by {
            if j > 0 {
                assert(e1.skip(1)[j - 1] == e1[j]);
                assert(e2.skip(1)[j - 1] == e2[j]);
            }
        }
        assert(e1 =~= e2);
    }
}

/// Toggling the filter between pulls cannot reach back into the raw
/// stream: two oscillators that agree on frequency and counter — whatever
/// their filter stages hold — advance to states that agree again and report
/// the same sample index.
pub proof fn lemma_filter_independent_of_raw_stream(
    pre1: SineWave,
    pre2: SineWave,
    post1: SineWave,
    i1: usize,
    post2: SineWave,
    i2: usize,
)
    requires
        pre1.freq == pre2.freq,
        pre1.num_sample == pre2.num_sample,
        advance_rel(pre1, post1, i1),
        advance_rel(pre2, post2, i2),
    ensures
        i1 == i2,
        post1.freq == post2.freq,
        post1.num_sample == post2.num_sample,
{
}

} // verus!
