use synth_core::music_theory::note::Frequency;
use synth_core::music_theory::note::Note;
use synth_core::music_theory::note::Octave;

/// The value of an exact `Frequency` in hertz, as `f32`.
fn hz(f: &Frequency) -> f32 {
    f.centi_hz as f32 / 100.0 * 2.0_f32.powi(f.exponent as i32)
}

#[test]
fn base_frequencies_at_octave_4() {
    let octave = Octave { value: 4 };
    let expected: [(Note, u32, f32); 7] = [
        (Note::A, 44000, 440.0),
        (Note::B, 49388, 493.88),
        (Note::C, 52325, 523.25),
        (Note::D, 58733, 587.33),
        (Note::E, 65925, 659.25),
        (Note::F, 69846, 698.46),
        (Note::G, 78399, 783.99),
    ];
    for (note, centi, hertz) in expected {
        let f = note.frequency(&octave);
        assert_eq!(f, Frequency { centi_hz: centi, exponent: 0 });
        assert_eq!(hz(&f), hertz);
    }
}

#[test]
fn octave_up_doubles() {
    let f = Note::A.frequency(&Octave { value: 5 });
    assert_eq!(f, Frequency { centi_hz: 44000, exponent: 1 });
    assert_eq!(hz(&f), 880.0);
}

#[test]
fn octave_down_halves() {
    let f = Note::A.frequency(&Octave { value: 3 });
    assert_eq!(f, Frequency { centi_hz: 44000, exponent: -1 });
    assert_eq!(hz(&f), 220.0);
}

#[test]
fn octave_scaling_matches_reference_octave() {
    for octave in -3..12 {
        for note in [Note::A, Note::B, Note::C, Note::D, Note::E, Note::F, Note::G] {
            let f = note.frequency(&Octave { value: octave });
            let base = note.frequency(&Octave { value: 4 });
            assert_eq!(f.centi_hz, base.centi_hz);
            assert_eq!(f.exponent, base.exponent + (octave as i64 - 4));
            assert_eq!(hz(&f), hz(&base) * 2.0_f32.powi(octave - 4));
        }
    }
}

#[test]
fn extreme_octaves_do_not_fail() {
    let low = Note::C.frequency(&Octave { value: i32::MIN });
    assert_eq!(low.exponent, i32::MIN as i64 - 4);
    assert!(low.centi_hz > 0);
    let high = Note::G.frequency(&Octave { value: i32::MAX });
    assert_eq!(high.exponent, i32::MAX as i64 - 4);
    assert!(high.centi_hz > 0);
}

#[test]
fn note_names_are_their_letters() {
    let expected = [
        (Note::A, "A"),
        (Note::B, "B"),
        (Note::C, "C"),
        (Note::D, "D"),
        (Note::E, "E"),
        (Note::F, "F"),
        (Note::G, "G"),
    ];
    for (note, name) in expected {
        assert_eq!(note.name(), name);
    }
}
