use daily_scale::notes::Note;
use daily_scale::scales::{get_notes_in_scale, get_steps_by_scale, scale_to_string, Scale};

#[test]
fn test_get_steps_by_scale() {
    assert_eq!(
        get_steps_by_scale(Scale::HarmonicMinor),
        &[0, 2, 3, 5, 7, 8, 11]
    );
    assert_eq!(get_steps_by_scale(Scale::Phrygian), &[0, 1, 3, 5, 7, 8, 10]);
}

#[test]
fn test_scale_to_string() {
    assert_eq!(scale_to_string(Scale::PentatonicBlues), "Pentatonic Blues");
    assert_eq!(scale_to_string(Scale::Dorian), "Dorian");
}

#[test]
fn test_get_notes_in_scale() {
    assert_eq!(
        get_notes_in_scale(Note::A, Scale::Major),
        vec![
            Note::A,
            Note::B,
            Note::CSharp,
            Note::D,
            Note::E,
            Note::FSharp,
            Note::GSharp
        ]
    );
    // Offsets wrap around the chromatic cycle past B.
    assert_eq!(
        get_notes_in_scale(Note::B, Scale::PentatonicMinor),
        vec![Note::B, Note::D, Note::E, Note::FSharp, Note::A]
    );
}

#[test]
fn test_steps_start_at_root() {
    let scales = [
        Scale::Major,
        Scale::HarmonicMinor,
        Scale::MelodicMinor,
        Scale::NaturalMinor,
        Scale::PentatonicMajor,
        Scale::PentatonicMinor,
        Scale::PentatonicBlues,
        Scale::PentatonicNeutral,
        Scale::WholeDiminished,
        Scale::HalfDiminished,
        Scale::Ionian,
        Scale::Dorian,
        Scale::Phrygian,
        Scale::Lydian,
        Scale::Mixolydian,
        Scale::Aeolian,
        Scale::Locrian,
    ];
    for scale in scales {
        let steps = get_steps_by_scale(scale);
        assert!((5..=8).contains(&steps.len()));
        assert_eq!(steps[0], 0);
        for pair in steps.windows(2) {
            assert!(pair[0] < pair[1]);
        }
        assert!(*steps.last().unwrap() <= 11);
    }
}
