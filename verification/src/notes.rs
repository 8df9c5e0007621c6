use vstd::prelude::*;

verus! {

/// One of the twelve equal-tempered pitch classes, ordered chromatically
/// starting from C. Octave information is not carried: equality and
/// arithmetic are modulo twelve.
#[derive(Clone, Copy, Debug, PartialEq, Eq, Structural)]
pub enum Note {
    C,
    CSharp,
    D,
    DSharp,
    E,
    F,
    FSharp,
    G,
    GSharp,
    A,
    ASharp,
    B,
}

/// The size of the chromatic cycle.
pub const NUM_NOTES: usize = 12;

/// The chromatic index of a pitch class: C is 0, B is 11.
pub open spec fn spec_note_index(note: Note) -> int {
    match note {
        Note::C => 0,
        Note::CSharp => 1,
        Note::D => 2,
        Note::DSharp => 3,
        Note::E => 4,
        Note::F => 5,
        Note::FSharp => 6,
        Note::G => 7,
        Note::GSharp => 8,
        Note::A => 9,
        Note::ASharp => 10,
        Note::B => 11,
    }
}

/// Returns the chromatic index of `note`.
pub fn note_index(note: Note) -> (i: usize)
    ensures
        i == spec_note_index(note),
{
    match note {
        Note::C => 0,
        Note::CSharp => 1,
        Note::D => 2,
        Note::DSharp => 3,
        Note::E => 4,
        Note::F => 5,
        Note::FSharp => 6,
        Note::G => 7,
        Note::GSharp => 8,
        Note::A => 9,
        Note::ASharp => 10,
        Note::B => 11,
    }
}

/// The pitch class with the given chromatic index, for indices below 12.
pub open spec fn spec_note_of_index(i: int) -> Note {
    if i == 0 {
        Note::C
    } else if i == 1 {
        Note::CSharp
    } else if i == 2 {
        Note::D
    } else if i == 3 {
        Note::DSharp
    } else if i == 4 {
        Note::E
    } else if i == 5 {
        Note::F
    } else if i == 6 {
        Note::FSharp
    } else if i == 7 {
        Note::G
    } else if i == 8 {
        Note::GSharp
    } else if i == 9 {
        Note::A
    } else if i == 10 {
        Note::ASharp
    } else {
        Note::B
    }
}

/// Returns the pitch class with chromatic index `i`.
pub fn note_of_index(i: usize) -> (n: Note)
    requires
        i < 12,
    ensures
        n == spec_note_of_index(i as int),
{
    if i == 0 {
        Note::C
    } else if i == 1 {
        Note::CSharp
    } else if i == 2 {
        Note::D
    } else if i == 3 {
        Note::DSharp
    } else if i == 4 {
        Note::E
    } else if i == 5 {
        Note::F
    } else if i == 6 {
        Note::FSharp
    } else if i == 7 {
        Note::G
    } else if i == 8 {
        Note::GSharp
    } else if i == 9 {
        Note::A
    } else if i == 10 {
        Note::ASharp
    } else {
        Note::B
    }
}

/// The pitch class reached from `note` by moving up `semitones` frets,
/// wrapping around the chromatic cycle.
pub open spec fn spec_transpose(note: Note, semitones: int) -> Note
    recommends
        semitones >= 0,
{
    spec_note_of_index((spec_note_index(note) + semitones) % 12)
}

/// Returns the pitch class `semitones` semitones above `note`, modulo the
/// chromatic cycle.
pub fn transpose(note: Note, semitones: usize) -> (r: Note)
    requires
        semitones + 11 <= usize::MAX,
    ensures
        r == spec_transpose(note, semitones as int),
{
    note_of_index((note_index(note) + semitones) % NUM_NOTES)
}

/// Whether the pitch class is a natural note (a one-letter name); the other
/// five pitch classes carry an accidental mark and a two-character name.
pub open spec fn spec_is_natural(note: Note) -> bool {
    match note {
        Note::C | Note::D | Note::E | Note::F | Note::G | Note::A | Note::B => true,
        _ => false,
    }
}

/// The conventional name of a pitch class, spelled with a sharp or with a
/// flat according to `flat`. Natural notes have a single-letter name either
/// way; altered notes have a letter followed by an accidental mark.
pub open spec fn spec_note_name(note: Note, flat: bool) -> Seq<char> {
    match note {
        Note::C => seq!['C'],
        Note::CSharp => if flat { seq!['D', 'b'] } else { seq!['C', '#'] },
        Note::D => seq!['D'],
        Note::DSharp => if flat { seq!['E', 'b'] } else { seq!['D', '#'] },
        Note::E => seq!['E'],
        Note::F => seq!['F'],
        Note::FSharp => if flat { seq!['G', 'b'] } else { seq!['F', '#'] },
        Note::G => seq!['G'],
        Note::GSharp => if flat { seq!['A', 'b'] } else { seq!['G', '#'] },
        Note::A => seq!['A'],
        Note::ASharp => if flat { seq!['B', 'b'] } else { seq!['A', '#'] },
        Note::B => seq!['B'],
    }
}

/// A natural note's name is one character; an altered note's name is two.
pub proof fn lemma_note_name_len(note: Note, flat: bool)
    ensures
        spec_note_name(note, flat).len() == if spec_is_natural(note) { 1int } else { 2int },
{
}

/// Returns the conventional display name of `note`, using flat spellings for
/// the altered pitch classes when `flat` is set.
pub fn note_to_string(note: Note, flat: bool) -> (r: &'static str)
    ensures
        r@ == spec_note_name(note, flat),
{
    proof {
        reveal_strlit("C");
        reveal_strlit("C#");
        reveal_strlit("Db");
        reveal_strlit("D");
        reveal_strlit("D#");
        reveal_strlit("Eb");
        reveal_strlit("E");
        reveal_strlit("F");
        reveal_strlit("F#");
        reveal_strlit("Gb");
        reveal_strlit("G");
        reveal_strlit("G#");
        reveal_strlit("Ab");
        reveal_strlit("A");
        reveal_strlit("A#");
        reveal_strlit("Bb");
        reveal_strlit("B");
    }
    match note {
        Note::C => "C",
        Note::CSharp => if flat { "Db" } else { "C#" },
        Note::D => "D",
        Note::DSharp => if flat { "Eb" } else { "D#" },
        Note::E => "E",
        Note::F => "F",
        Note::FSharp => if flat { "Gb" } else { "F#" },
        Note::G => "G",
        Note::GSharp => if flat { "Ab" } else { "G#" },
        Note::A => "A",
        Note::ASharp => if flat { "Bb" } else { "A#" },
        Note::B => "B",
    }
}

/// Returns whether the pitch class is a natural note.
pub fn is_natural(note: Note) -> (b: bool)
    ensures
        b == spec_is_natural(note),
{
    match note {
        Note::C | Note::D | Note::E | Note::F | Note::G | Note::A | Note::B => true,
        _ => false,
    }
}

/// A root-note spelling as a user writes it: one of the seven naturals, or
/// an altered pitch class spelled either sharp or flat. Two spellings of the
/// same pitch class name the same `Note`; the spelling only decides whether
/// the diagram prefers flat names.
#[derive(Clone, Copy, Debug, PartialEq, Eq, Structural)]
pub enum Accidental {
    AFlat,
    A,
    ASharp,
    BFlat,
    B,
    C,
    CSharp,
    DFlat,
    D,
    DSharp,
    EFlat,
    E,
    F,
    FSharp,
    GFlat,
    G,
    GSharp,
}

/// The pitch class a spelling names.
pub open spec fn spec_accidental_note(accidental: Accidental) -> Note {
    match accidental {
        Accidental::AFlat => Note::GSharp,
        Accidental::A => Note::A,
        Accidental::ASharp => Note::ASharp,
        Accidental::BFlat => Note::ASharp,
        Accidental::B => Note::B,
        Accidental::C => Note::C,
        Accidental::CSharp => Note::CSharp,
        Accidental::DFlat => Note::CSharp,
        Accidental::D => Note::D,
        Accidental::DSharp => Note::DSharp,
        Accidental::EFlat => Note::DSharp,
        Accidental::E => Note::E,
        Accidental::F => Note::F,
        Accidental::FSharp => Note::FSharp,
        Accidental::GFlat => Note::FSharp,
        Accidental::G => Note::G,
        Accidental::GSharp => Note::GSharp,
    }
}

/// Returns the pitch class the spelling `accidental` names.
pub fn accidental_to_note(accidental: &Accidental) -> (note: Note)
    ensures
        note == spec_accidental_note(*accidental),
{
    match accidental {
        Accidental::AFlat => Note::GSharp,
        Accidental::A => Note::A,
        Accidental::ASharp => Note::ASharp,
        Accidental::BFlat => Note::ASharp,
        Accidental::B => Note::B,
        Accidental::C => Note::C,
        Accidental::CSharp => Note::CSharp,
        Accidental::DFlat => Note::CSharp,
        Accidental::D => Note::D,
        Accidental::DSharp => Note::DSharp,
        Accidental::EFlat => Note::DSharp,
        Accidental::E => Note::E,
        Accidental::F => Note::F,
        Accidental::FSharp => Note::FSharp,
        Accidental::GFlat => Note::FSharp,
        Accidental::G => Note::G,
        Accidental::GSharp => Note::GSharp,
    }
}

/// Whether a spelling is one of the five flat spellings, which make the
/// diagram prefer flat names throughout.
pub open spec fn spec_is_flat_accidental(accidental: Accidental) -> bool {
    match accidental {
        Accidental::AFlat | Accidental::BFlat | Accidental::DFlat | Accidental::EFlat
            | Accidental::GFlat => true,
        _ => false,
    }
}

/// Returns whether the spelling `accidental` is a flat spelling.
pub fn is_flat_accidental(accidental: &Accidental) -> (b: bool)
    ensures
        b == spec_is_flat_accidental(*accidental),
{
    match accidental {
        Accidental::AFlat | Accidental::BFlat | Accidental::DFlat | Accidental::EFlat
            | Accidental::GFlat => true,
        _ => false,
    }
}

} // verus!
