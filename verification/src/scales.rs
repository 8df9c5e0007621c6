use vstd::prelude::*;

use crate::notes::{spec_transpose, transpose, Note};

verus! {

/// The closed set of scales the diagram can display. Each scale is a sorted
/// ascending sequence of semitone offsets from an implicit root.
#[derive(Clone, Copy, Debug, PartialEq, Eq, Structural)]
pub enum Scale {
    Major,
    HarmonicMinor,
    MelodicMinor,
    NaturalMinor,
    PentatonicMajor,
    PentatonicMinor,
    PentatonicBlues,
    PentatonicNeutral,
    WholeDiminished,
    HalfDiminished,
    Ionian,
    Dorian,
    Phrygian,
    Lydian,
    Mixolydian,
    Aeolian,
    Locrian,
}

/// The semitone offsets of each scale from its root: strictly increasing,
/// each in [0, 11], always starting at 0.
pub open spec fn spec_scale_steps(key: Scale) -> Seq<int> {
    match key {
        Scale::Major => seq![0, 2, 4, 5, 7, 9, 11],
        Scale::HarmonicMinor => seq![0, 2, 3, 5, 7, 8, 11],
        Scale::MelodicMinor => seq![0, 2, 3, 5, 7, 9, 11],
        Scale::NaturalMinor => seq![0, 2, 3, 5, 7, 8, 10],
        Scale::PentatonicMajor => seq![0, 2, 4, 7, 9],
        Scale::PentatonicMinor => seq![0, 3, 5, 7, 10],
        Scale::PentatonicBlues => seq![0, 3, 5, 6, 7, 10],
        Scale::PentatonicNeutral => seq![0, 2, 5, 7, 10],
        Scale::WholeDiminished => seq![0, 2, 3, 5, 6, 8, 9, 11],
        Scale::HalfDiminished => seq![0, 1, 3, 4, 6, 7, 9, 10],
        Scale::Ionian => seq![0, 2, 4, 5, 7, 9, 11],
        Scale::Dorian => seq![0, 2, 3, 5, 7, 9, 10],
        Scale::Phrygian => seq![0, 1, 3, 5, 7, 8, 10],
        Scale::Lydian => seq![0, 2, 4, 6, 7, 9, 11],
        Scale::Mixolydian => seq![0, 2, 4, 5, 7, 9, 10],
        Scale::Aeolian => seq![0, 2, 3, 5, 7, 8, 10],
        Scale::Locrian => seq![0, 1, 3, 5, 6, 8, 10],
    }
}

/// Returns the semitone offsets of `key` from its root, ascending.
pub fn get_steps_by_scale(key: Scale) -> (steps: Vec<usize>)
    ensures
        steps@.map_values(|s: usize| s as int) == spec_scale_steps(key),
{
    let steps: Vec<usize> = match key {
        Scale::Major => vec![0, 2, 4, 5, 7, 9, 11],
        Scale::HarmonicMinor => vec![0, 2, 3, 5, 7, 8, 11],
        Scale::MelodicMinor => vec![0, 2, 3, 5, 7, 9, 11],
        Scale::NaturalMinor => vec![0, 2, 3, 5, 7, 8, 10],
        Scale::PentatonicMajor => vec![0, 2, 4, 7, 9],
        Scale::PentatonicMinor => vec![0, 3, 5, 7, 10],
        Scale::PentatonicBlues => vec![0, 3, 5, 6, 7, 10],
        Scale::PentatonicNeutral => vec![0, 2, 5, 7, 10],
        Scale::WholeDiminished => vec![0, 2, 3, 5, 6, 8, 9, 11],
        Scale::HalfDiminished => vec![0, 1, 3, 4, 6, 7, 9, 10],
        Scale::Ionian => vec![0, 2, 4, 5, 7, 9, 11],
        Scale::Dorian => vec![0, 2, 3, 5, 7, 9, 10],
        Scale::Phrygian => vec![0, 1, 3, 5, 7, 8, 10],
        Scale::Lydian => vec![0, 2, 4, 6, 7, 9, 11],
        Scale::Mixolydian => vec![0, 2, 4, 5, 7, 9, 10],
        Scale::Aeolian => vec![0, 2, 3, 5, 7, 8, 10],
        Scale::Locrian => vec![0, 1, 3, 5, 6, 8, 10],
    };
    proof {
        assert(steps@.map_values(|s: usize| s as int) =~= spec_scale_steps(key));
    }
    steps
}

/// The human-readable name of each scale.
pub open spec fn spec_scale_name(scale: Scale) -> Seq<char> {
    match scale {
        Scale::Major => "Major"@,
        Scale::HarmonicMinor => "Harmonic Minor"@,
        Scale::MelodicMinor => "Melodic Minor"@,
        Scale::NaturalMinor => "Natural Minor"@,
        Scale::PentatonicMajor => "Pentatonic Major"@,
        Scale::PentatonicMinor => "Pentatonic Minor"@,
        Scale::PentatonicBlues => "Pentatonic Blues"@,
        Scale::PentatonicNeutral => "Pentatonic Neutral"@,
        Scale::WholeDiminished => "Whole Diminished"@,
        Scale::HalfDiminished => "Half Diminished"@,
        Scale::Ionian => "Ionian"@,
        Scale::Dorian => "Dorian"@,
        Scale::Phrygian => "Phrygian"@,
        Scale::Lydian => "Lydian"@,
        Scale::Mixolydian => "Mixolydian"@,
        Scale::Aeolian => "Aeolian"@,
        Scale::Locrian => "Locrian"@,
    }
}

/// Returns the human-readable name of `scale`.
pub fn scale_to_string(scale: Scale) -> (r: &'static str)
    ensures
        r@ == spec_scale_name(scale),
{
    match scale {
        Scale::Major => "Major",
        Scale::HarmonicMinor => "Harmonic Minor",
        Scale::MelodicMinor => "Melodic Minor",
        Scale::NaturalMinor => "Natural Minor",
        Scale::PentatonicMajor => "Pentatonic Major",
        Scale::PentatonicMinor => "Pentatonic Minor",
        Scale::PentatonicBlues => "Pentatonic Blues",
        Scale::PentatonicNeutral => "Pentatonic Neutral",
        Scale::WholeDiminished => "Whole Diminished",
        Scale::HalfDiminished => "Half Diminished",
        Scale::Ionian => "Ionian",
        Scale::Dorian => "Dorian",
        Scale::Phrygian => "Phrygian",
        Scale::Lydian => "Lydian",
        Scale::Mixolydian => "Mixolydian",
        Scale::Aeolian => "Aeolian",
        Scale::Locrian => "Locrian",
    }
}

/// Scale well-formedness law: every scale's offsets start at 0, stay within
/// one octave, increase strictly, and number between 5 and 8.
pub proof fn lemma_scale_steps_wf(key: Scale)
    ensures
        5 <= spec_scale_steps(key).len() <= 8,
        spec_scale_steps(key)[0] == 0,
        forall|i: int|
            0 <= i < spec_scale_steps(key).len() ==> 0 <= #[trigger] spec_scale_steps(key)[i]
                <= 11,
        forall|i: int, j: int|
            0 <= i < j < spec_scale_steps(key).len() ==> spec_scale_steps(key)[i]
                < spec_scale_steps(key)[j],
{
}

/// The absolute pitch classes of a scale built on `root`: the root
/// transposed by each of the scale's offsets, in offset order.
pub open spec fn spec_notes_in_scale(root: Note, key: Scale) -> Seq<Note> {
    spec_scale_steps(key).map_values(|step: int| spec_transpose(root, step))
}

/// Returns the pitch classes of the scale `key` built on `root`, in offset
/// order starting with the root itself.
pub fn get_notes_in_scale(root: Note, key: Scale) -> (notes: Vec<Note>)
    ensures
        notes@ == spec_notes_in_scale(root, key),
{
    proof {
        lemma_scale_steps_wf(key);
    }
    let steps = get_steps_by_scale(key);
    let mut notes: Vec<Note> = Vec::new();
    let mut i: usize = 0;
    while i < steps.len()
        invariant
            i <= steps@.len(),
            steps@.map_values(|s: usize| s as int) == spec_scale_steps(key),
            forall|k: int|
                0 <= k < spec_scale_steps(key).len() ==> 0 <= #[trigger] spec_scale_steps(key)[k]
                    <= 11,
            notes@.len() == i,
            forall|k: int|
                0 <= k < i ==> notes@[k] == spec_transpose(root, spec_scale_steps(key)[k]),
        decreases steps@.len() - i,
    {
        assert(steps@[i as int] as int == spec_scale_steps(key)[i as int]);
        let note = transpose(root, steps[i]);
        notes.push(note);
        i += 1;
    }
    proof {
        assert(notes@ =~= spec_notes_in_scale(root, key));
    }
    notes
}

} // verus!
