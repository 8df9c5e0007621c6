use daily_scale::notes::{
    accidental_to_note, is_flat_accidental, note_index, note_of_index, note_to_string, transpose,
    Accidental, Note, NUM_NOTES,
};

#[test]
fn test_note_to_string_spellings() {
    assert_eq!(note_to_string(Note::C, false), "C");
    assert_eq!(note_to_string(Note::C, true), "C");
    assert_eq!(note_to_string(Note::CSharp, false), "C#");
    assert_eq!(note_to_string(Note::CSharp, true), "Db");
    assert_eq!(note_to_string(Note::ASharp, false), "A#");
    assert_eq!(note_to_string(Note::ASharp, true), "Bb");
}

#[test]
fn test_transpose_wraps() {
    assert_eq!(transpose(Note::B, 1), Note::C);
    assert_eq!(transpose(Note::E, 12), Note::E);
    assert_eq!(transpose(Note::G, 17), Note::C);
    assert_eq!(NUM_NOTES, 12);
}

#[test]
fn test_note_index_round_trip() {
    for i in 0..12 {
        assert_eq!(note_index(note_of_index(i)), i);
    }
}

#[test]
fn test_accidental_spellings() {
    assert_eq!(accidental_to_note(&Accidental::BFlat), Note::ASharp);
    assert_eq!(accidental_to_note(&Accidental::ASharp), Note::ASharp);
    assert_eq!(accidental_to_note(&Accidental::E), Note::E);
    assert!(is_flat_accidental(&Accidental::GFlat));
    assert!(!is_flat_accidental(&Accidental::FSharp));
    assert!(!is_flat_accidental(&Accidental::A));
}
