use vstd::arithmetic::power2::pow2;
use vstd::prelude::*;
use vstd::string::StringExecFns;

verus! {

/// A signed octave register index.  Octave 4 is the reference octave: at
/// octave 4 a note sounds at exactly its base frequency.  No validity range
/// is enforced; extreme values merely shift the binary exponent of the
/// resulting [`Frequency`].
#[derive(Clone, Copy, Debug)]
pub struct Octave {
    pub value: i32,
}

/// The seven natural pitch classes.
#[derive(Clone, Copy, Debug, PartialEq, Eq, Structural)]
pub enum Note {
    A,
    B,
    C,
    D,
    E,
    F,
    G,
}

/// An exact pitch value: `centi_hz` hundredths of a hertz, scaled by
/// `2^exponent`.  So the pitch in hertz is `centi_hz * 2^exponent / 100`.
///
/// The base-frequency table has two decimal places, so hundredths of a hertz
/// represent every base pitch exactly, and octave changes only move the
/// binary exponent.  A `Frequency` is therefore exact for every note at
/// every octave, which is what lets the octave-scaling laws below be proved
/// as equalities rather than approximations.
#[derive(Clone, Copy, Debug, PartialEq, Eq, Structural)]
pub struct Frequency {
    /// The mantissa, in hundredths of a hertz.  Always strictly positive.
    pub centi_hz: u32,
    /// The binary exponent: one octave above the reference doubles the
    /// pitch, one octave below halves it.
    pub exponent: i64,
}

/// The base frequency of each note at the reference octave 4, in hundredths
/// of a hertz: A = 440.00 Hz, B = 493.88 Hz, C = 523.25 Hz, D = 587.33 Hz,
/// E = 659.25 Hz, F = 698.46 Hz, G = 783.99 Hz.
pub open spec fn spec_base_centi_hz(note: Note) -> u32 {
    match note {
        Note::A => 44000,
        Note::B => 49388,
        Note::C => 52325,
        Note::D => 58733,
        Note::E => 65925,
        Note::F => 69846,
        Note::G => 78399,
    }
}

/// The canonical one-character display form of a note: its own letter name.
pub open spec fn spec_letter(note: Note) -> char {
    match note {
        Note::A => 'A',
        Note::B => 'B',
        Note::C => 'C',
        Note::D => 'D',
        Note::E => 'E',
        Note::F => 'F',
        Note::G => 'G',
    }
}

/// The pitch of `note` at `octave`: the base mantissa from the table, with
/// the binary exponent shifted by `octave - 4`.
pub open spec fn spec_frequency(note: Note, octave: Octave) -> Frequency {
    Frequency { centi_hz: spec_base_centi_hz(note), exponent: (octave.value - 4) as i64 }
}

impl Note {
    /// Computes the frequency of the note as `base_frequency * 2^(octave - 4)`.
    ///
    /// Total over every octave value: an extreme octave only produces an
    /// extreme exponent, never a panic.  The result is exact — see
    /// [`Frequency`].
    pub fn frequency(&self, octave: &Octave) -> (f: Frequency)
        ensures
            f == spec_frequency(*self, *octave),
            f.centi_hz == spec_base_centi_hz(*self),
            f.exponent == octave.value - 4,
            f.centi_hz > 0,
    {
        let base_frequency: u32 = match self {
            Note::A => 44000,
            Note::B => 49388,
            Note::C => 52325,
            Note::D => 58733,
            Note::E => 65925,
            Note::F => 69846,
            Note::G => 78399,
        };

        // Adjust the base frequency according to the octave register.
        Frequency { centi_hz: base_frequency, exponent: (octave.value as i64) - 4 }
    }

    /// The canonical one-character rendering of the note: its letter name.
    pub fn name(&self) -> (s: String)
        ensures
            s@ == seq![spec_letter(*self)],
    {
        let s: &str = match self {
            Note::A => "A",
            Note::B => "B",
            Note::C => "C",
            Note::D => "D",
            Note::E => "E",
            Note::F => "F",
            Note::G => "G",
        };
        proof {
            reveal_strlit("A");
            reveal_strlit("B");
            reveal_strlit("C");
            reveal_strlit("D");
            reveal_strlit("E");
            reveal_strlit("F");
            reveal_strlit("G");
            assert(s@ =~= seq![spec_letter(*self)]);
        }
        String::from_str(s)
    }
}

/// The numerator of the exact value of `f` in hundredths of a hertz, read as
/// the ratio `spec_numer(f) / spec_denom(f)`.
pub open spec fn spec_numer(f: Frequency) -> int {
    if f.exponent >= 0 {
        f.centi_hz * pow2(f.exponent as nat)
    } else {
        f.centi_hz as int
    }
}

/// The denominator of the exact value of `f` in hundredths of a hertz.
pub open spec fn spec_denom(f: Frequency) -> int {
    if f.exponent >= 0 {
        1
    } else {
        pow2((-(f.exponent as int)) as nat) as int
    }
}

/// Octave-scaling law: for every note and every octave, the pitch keeps the
/// mantissa of the reference pitch at octave 4 and shifts its binary
/// exponent by exactly `octave - 4` — one doubling per octave up, one
/// halving per octave down.
pub proof fn lemma_octave_scaling(note: Note, octave: Octave)
    ensures
        spec_frequency(note, octave).centi_hz == spec_frequency(
            note,
            (Octave { value: 4 }),
        ).centi_hz,
        spec_frequency(note, octave).exponent == spec_frequency(note, (Octave { value: 4 })).exponent
            + (octave.value - 4),
{
}

/// Doubling law: a frequency one binary exponent above another with the same
/// mantissa is exactly twice it as a rational number of centihertz.  The
/// equality `g == 2 * f` of rationals is written cross-multiplied, as
/// `numer(g) * denom(f) == 2 * (numer(f) * denom(g))`.
pub proof fn lemma_octave_doubling(f: Frequency, g: Frequency)
    requires
        g.centi_hz == f.centi_hz,
        f.exponent < i64::MAX,
        g.exponent == f.exponent + 1,
    ensures
        spec_numer(g) * spec_denom(f) == 2 * (spec_numer(f) * spec_denom(g)),
{
    let c = f.centi_hz as int;
    if f.exponent >= 0 {
        let e = f.exponent as nat;
        assert(g.exponent as nat == (e + 1) as nat);
        vstd::arithmetic::power2::lemma_pow2_unfold((e + 1) as nat);
        assert(c * pow2((e + 1) as nat) == 2 * (c * pow2(e)))
            by (nonlinear_arith)
            requires
                pow2((e + 1) as nat) == 2 * pow2(e),
        ;
        assert(spec_numer(g) == c * pow2((e + 1) as nat));
        assert(spec_denom(f) == 1 && spec_denom(g) == 1);
    } else if f.exponent == -1 {
        vstd::arithmetic::power2::lemma2_to64();
        assert(g.exponent as nat == 0);
        assert((-(f.exponent as int)) as nat == 1nat);
        assert(spec_numer(g) == c * pow2(0) == c);
        assert(spec_denom(f) == pow2(1) == 2);
        assert(spec_numer(f) == c && spec_denom(g) == 1);
    } else {
        let k = (-(g.exponent as int)) as nat;
        assert((-(f.exponent as int)) as nat == (k + 1) as nat);
        vstd::arithmetic::power2::lemma_pow2_unfold((k + 1) as nat);
        assert(c * pow2((k + 1) as nat) == 2 * (c * pow2(k)))
            by (nonlinear_arith)
            requires
                pow2((k + 1) as nat) == 2 * pow2(k),
        ;
        assert(spec_numer(g) == c && spec_numer(f) == c);
        assert(spec_denom(f) == pow2((k + 1) as nat));
        assert(spec_denom(g) == pow2(k));
    }
}

/// For every note, raising the octave register by one exactly doubles the
/// pitch: with `f` the pitch at `octave` and `g` the pitch one octave up,
/// `g == 2 * f` holds of the exact rational values.  Together with
/// [`lemma_octave_scaling`] this is the scaling law
/// `frequency(note, octave) == frequency(note, 4) * 2^(octave - 4)`.
pub proof fn lemma_octave_up_doubles(note: Note, octave: Octave, up: Octave)
    requires
        octave.value < i32::MAX,
        up.value == octave.value + 1,
    ensures
        spec_numer(spec_frequency(note, up)) * spec_denom(spec_frequency(note, octave)) == 2 * (
        spec_numer(spec_frequency(note, octave)) * spec_denom(spec_frequency(note, up))),
{
    lemma_octave_doubling(spec_frequency(note, octave), spec_frequency(note, up));
}

} // verus!
