use vstd::prelude::*;
use vstd::string::StringExecFns;

use crate::notes::{
    is_natural, lemma_note_name_len, note_to_string, spec_note_name, spec_transpose, transpose,
    Note,
};
use crate::tunings::{get_notes_by_tuning, lemma_tuning_notes_len, spec_tuning_notes, Tuning};

verus! {

/// The highest fret the diagram knows about.
pub const NUM_FRETS: usize = 24;

/// The number of consecutive frets one diagram shows.
pub const FRET_SPAN: usize = 5;

/// How many of a tuning's highest-pitched strings are drawn with the thin
/// fill character.
pub const NUM_THIN_STRINGS: usize = 3;

/// Relies on `String::push` of std: it appends the given character to the
/// end of the string.
pub assume_specification[ String::push ](s: &mut String, ch: char)
    ensures
        final(s)@ == old(s)@.push(ch),
;

/// The printed width of the cell at a fret, tapering from 10 characters at
/// the nut end down to 5 at the top of the neck: frets 1-2 are 10 wide,
/// 3-5 are 9, 6-9 are 8, 10-14 are 7, 15-20 are 6, and 21-24 are 5.
pub open spec fn spec_fret_width(fret: int) -> int
    recommends
        1 <= fret <= 24,
{
    if fret <= 2 {
        10
    } else if fret <= 5 {
        9
    } else if fret <= 9 {
        8
    } else if fret <= 14 {
        7
    } else if fret <= 20 {
        6
    } else {
        5
    }
}

/// Returns the taper width of the cell at `fret`.
pub fn fret_width(fret: usize) -> (w: usize)
    requires
        1 <= fret <= NUM_FRETS,
    ensures
        w == spec_fret_width(fret as int),
{
    if fret <= 2 {
        10
    } else if fret <= 5 {
        9
    } else if fret <= 9 {
        8
    } else if fret <= 14 {
        7
    } else if fret <= 20 {
        6
    } else {
        5
    }
}

/// The fill count to the left of a centered label in a cell of width `w`.
pub open spec fn spec_left_pad(w: int) -> int {
    w / 2 - if w % 2 == 1 {
        0int
    } else {
        1int
    }
}

/// The fill count to the right of a centered label in a cell of width `w`.
pub open spec fn spec_right_pad(w: int) -> int {
    w / 2 - 1
}

/// `n` copies of the character `c`.
pub open spec fn spec_repeat(c: char, n: int) -> Seq<char>
    recommends
        n >= 0,
{
    Seq::new(n as nat, |i: int| c)
}

/// A label widened to the nominal width of 2: a one-character label gets the
/// fill character appended, a longer label is kept as it is.
pub open spec fn spec_padded_label(label: Seq<char>, fill: char) -> Seq<char> {
    if label.len() == 1 {
        label.push(fill)
    } else {
        label
    }
}

/// One printed cell. At fret 0 (the open string) there is no leading `|` and
/// the cell is 2 wide: the padded label if one is shown, else two fill
/// characters. At any other fret the cell is a leading `|` followed by the
/// taper width of fill characters, with a shown label centered among them.
pub open spec fn spec_cell(fret: int, mark: Option<Seq<char>>, fill: char) -> Seq<char>
    recommends
        0 <= fret <= 24,
{
    if fret == 0 {
        match mark {
            Some(label) => spec_padded_label(label, fill),
            None => spec_repeat(fill, 2),
        }
    } else {
        seq!['|'] + match mark {
            Some(label) => spec_repeat(fill, spec_left_pad(spec_fret_width(fret)))
                + spec_padded_label(label, fill) + spec_repeat(
                fill,
                spec_right_pad(spec_fret_width(fret)),
            ),
            None => spec_repeat(fill, spec_fret_width(fret)),
        }
    }
}

/// The pitch class sounded at `fret` on a string whose open note is
/// `open_note`.
pub open spec fn spec_fret_note(open_note: Note, fret: int) -> Note
    recommends
        fret >= 0,
{
    spec_transpose(open_note, fret)
}

/// The cell printed at `fret` of a string line: the fret's note, labeled
/// when it lies in the scale.
pub open spec fn spec_string_cell(
    fret: int,
    scale: Seq<Note>,
    open_note: Note,
    fill: char,
    flat: bool,
) -> Seq<char>
    recommends
        0 <= fret <= 24,
{
    let note = spec_fret_note(open_note, fret);
    spec_cell(
        fret,
        if scale.contains(note) {
            Some(spec_note_name(note, flat))
        } else {
            None
        },
        fill,
    )
}

/// The first `count` cells of a string line whose window starts at `start`.
pub open spec fn spec_string_cells(
    start: int,
    count: int,
    scale: Seq<Note>,
    open_note: Note,
    fill: char,
    flat: bool,
) -> Seq<char>
    decreases count,
{
    if count <= 0 {
        Seq::empty()
    } else {
        spec_string_cells(start, count - 1, scale, open_note, fill, flat) + spec_string_cell(
            start + count - 1,
            scale,
            open_note,
            fill,
            flat,
        )
    }
}

/// A whole string line: the five cells of the window, then the closing `|`.
pub open spec fn spec_string_line(
    start: int,
    scale: Seq<Note>,
    open_note: Note,
    fill: char,
    flat: bool,
) -> Seq<char>
    recommends
        0 <= start && start + FRET_SPAN <= NUM_FRETS + 1,
{
    spec_string_cells(start, FRET_SPAN as int, scale, open_note, fill, flat) + seq!['|']
}

/// The decimal digit character for `d`.
pub open spec fn spec_digit_char(d: int) -> char
    recommends
        0 <= d <= 9,
{
    if d == 0 {
        '0'
    } else if d == 1 {
        '1'
    } else if d == 2 {
        '2'
    } else if d == 3 {
        '3'
    } else if d == 4 {
        '4'
    } else if d == 5 {
        '5'
    } else if d == 6 {
        '6'
    } else if d == 7 {
        '7'
    } else if d == 8 {
        '8'
    } else {
        '9'
    }
}

/// A fret number formatted to exactly two characters: a single digit gets a
/// trailing space, two digits stand as they are.
pub open spec fn spec_fret_num_label(n: int) -> Seq<char>
    recommends
        0 <= n < 100,
{
    if n < 10 {
        seq![spec_digit_char(n), ' ']
    } else {
        seq![spec_digit_char(n / 10), spec_digit_char(n % 10)]
    }
}

/// The cell printed at `fret` of the ruler line: the fret number centered
/// with spaces, and two plain spaces at the fret 0 slot.
pub open spec fn spec_ruler_cell(fret: int) -> Seq<char>
    recommends
        0 <= fret <= 24,
{
    spec_cell(
        fret,
        if fret == 0 {
            None
        } else {
            Some(spec_fret_num_label(fret))
        },
        ' ',
    )
}

/// The first `count` cells of the ruler line whose window starts at `start`.
pub open spec fn spec_ruler_cells(start: int, count: int) -> Seq<char>
    decreases count,
{
    if count <= 0 {
        Seq::empty()
    } else {
        spec_ruler_cells(start, count - 1) + spec_ruler_cell(start + count - 1)
    }
}

/// The whole ruler line: the five cells of the window, then the closing `|`.
pub open spec fn spec_fret_num_line(start: int) -> Seq<char>
    recommends
        0 <= start && start + FRET_SPAN <= NUM_FRETS + 1,
{
    spec_ruler_cells(start, FRET_SPAN as int) + seq!['|']
}

/// The fill character of the string at index `string_idx` (counted from the
/// lowest-pitched string) in a tuning of `num_strings` strings: `=` for a
/// thick string, `-` for one of the three thinnest.
pub open spec fn spec_string_fill(num_strings: int, string_idx: int) -> char {
    if string_idx < num_strings - NUM_THIN_STRINGS {
        '='
    } else {
        '-'
    }
}

/// The whole diagram: one line per string, the highest-pitched string first
/// and the lowest-pitched last, then the ruler line.
pub open spec fn spec_fret_board(tuning: Tuning, start: int, scale: Seq<Note>, flat: bool) -> Seq<
    Seq<char>,
>
    recommends
        0 <= start && start + FRET_SPAN <= NUM_FRETS + 1,
{
    let notes = spec_tuning_notes(tuning);
    let n = notes.len() as int;
    Seq::new(
        (n + 1) as nat,
        |i: int|
            if i < n {
                spec_string_line(start, scale, notes[n - 1 - i], spec_string_fill(n, n - 1 - i), flat)
            } else {
                spec_fret_num_line(start)
            },
    )
}

/// Appends `n` copies of `c` to `r`.
fn push_repeat(r: &mut String, c: char, n: usize)
    ensures
        final(r)@ == old(r)@ + spec_repeat(c, n as int),
{
    proof {
        assert(old(r)@ + spec_repeat(c, 0) =~= old(r)@);
    }
    let mut i: usize = 0;
    while i < n
        invariant
            i <= n,
            r@ == old(r)@ + spec_repeat(c, i as int),
        decreases n - i,
    {
        r.push(c);
        proof {
            assert(r@ =~= old(r)@ + spec_repeat(c, i + 1));
        }
        i += 1;
    }
}

/// Returns a note's display name widened to the nominal cell width of 2: a
/// natural note's one-letter name gets the string's fill character appended,
/// an altered note's two-character name stands as it is.
pub fn format_note(note: Note, string_char: char, flat: bool) -> (r: String)
    ensures
        r@ == spec_padded_label(spec_note_name(note, flat), string_char),
{
    proof {
        lemma_note_name_len(note, flat);
    }
    let mut r = String::new();
    r.append(note_to_string(note, flat));
    if is_natural(note) {
        r.push(string_char);
    }
    proof {
        assert(r@ =~= spec_padded_label(spec_note_name(note, flat), string_char));
    }
    r
}

/// Returns the decimal digit character for `d`.
fn digit_char(d: usize) -> (c: char)
    requires
        d <= 9,
    ensures
        c == spec_digit_char(d as int),
{
    if d == 0 {
        '0'
    } else if d == 1 {
        '1'
    } else if d == 2 {
        '2'
    } else if d == 3 {
        '3'
    } else if d == 4 {
        '4'
    } else if d == 5 {
        '5'
    } else if d == 6 {
        '6'
    } else if d == 7 {
        '7'
    } else if d == 8 {
        '8'
    } else {
        '9'
    }
}

/// Returns a fret number formatted to exactly two characters: a single digit
/// gets a trailing space.
pub fn format_fret_num(fret_num: usize) -> (r: String)
    requires
        fret_num < 100,
    ensures
        r@ == spec_fret_num_label(fret_num as int),
{
    let mut r = String::new();
    if fret_num < 10 {
        r.push(digit_char(fret_num));
        r.push(' ');
    } else {
        r.push(digit_char(fret_num / 10));
        r.push(digit_char(fret_num % 10));
    }
    proof {
        assert(r@ =~= spec_fret_num_label(fret_num as int));
    }
    r
}

/// Returns whether `note` lies in the given set of in-scale pitch classes.
fn scale_contains(notes_in_scale: &[Note], note: Note) -> (b: bool)
    ensures
        b == notes_in_scale@.contains(note),
{
    let mut i: usize = 0;
    while i < notes_in_scale.len()
        invariant
            i <= notes_in_scale@.len(),
            forall|k: int| 0 <= k < i ==> notes_in_scale@[k] != note,
        decreases notes_in_scale@.len() - i,
    {
        if notes_in_scale[i] == note {
            return true;
        }
        i += 1;
    }
    false
}

/// Appends an unlabeled cell to `r`: two fill characters at fret 0, else a
/// leading `|` and the taper width of fill characters.
fn push_empty_cell(r: &mut String, fret: usize, fill: char)
    requires
        fret <= NUM_FRETS,
    ensures
        final(r)@ == old(r)@ + spec_cell(fret as int, None, fill),
{
    if fret == 0 {
        r.push(fill);
        r.push(fill);
        proof {
            assert(r@ =~= old(r)@ + spec_cell(fret as int, None, fill));
        }
    } else {
        r.push('|');
        let w = fret_width(fret);
        push_repeat(r, fill, w);
        proof {
            assert(r@ =~= old(r)@ + spec_cell(fret as int, None, fill));
        }
    }
}

/// Appends a labeled cell to `r`. `padded` must hold the cell's label
/// already widened to the nominal width of 2; at fret 0 it stands alone,
/// at any other fret it is centered in the taper width behind a leading `|`.
fn push_marked_cell(r: &mut String, fret: usize, padded: &String, fill: char, Ghost(label): Ghost<
    Seq<char>,
>)
    requires
        fret <= NUM_FRETS,
        1 <= label.len() <= 2,
        padded@ == spec_padded_label(label, fill),
    ensures
        final(r)@ == old(r)@ + spec_cell(fret as int, Some(label), fill),
{
    if fret == 0 {
        r.append(padded.as_str());
        proof {
            assert(r@ =~= old(r)@ + spec_cell(fret as int, Some(label), fill));
        }
    } else {
        r.push('|');
        let w = fret_width(fret);
        let left = w / 2 - if w % 2 != 0 {
            0
        } else {
            1
        };
        let right = w / 2 - 1;
        push_repeat(r, fill, left);
        r.append(padded.as_str());
        push_repeat(r, fill, right);
        proof {
            assert(r@ =~= old(r)@ + spec_cell(fret as int, Some(label), fill));
        }
    }
}

/// Renders one string's line of the diagram: the five cells of the window
/// starting at `starting_fret`, with the notes of `notes_in_scale` labeled
/// and centered, closed by a trailing `|`.
pub fn build_fret_board_string(
    starting_fret: usize,
    notes_in_scale: &[Note],
    string: &Note,
    string_char: char,
    flat: bool,
) -> (r: String)
    requires
        starting_fret + FRET_SPAN <= NUM_FRETS + 1,
    ensures
        r@ == spec_string_line(starting_fret as int, notes_in_scale@, *string, string_char, flat),
{
    let mut r = String::new();
    let mut fret: usize = starting_fret;
    while fret < starting_fret + FRET_SPAN
        invariant
            starting_fret <= fret <= starting_fret + FRET_SPAN,
            starting_fret + FRET_SPAN <= NUM_FRETS + 1,
            r@ == spec_string_cells(
                starting_fret as int,
                fret - starting_fret,
                notes_in_scale@,
                *string,
                string_char,
                flat,
            ),
        decreases starting_fret + FRET_SPAN - fret,
    {
        let ghost cells_so_far = r@;
        let note = transpose(*string, fret);
        let in_scale = scale_contains(notes_in_scale, note);
        if in_scale {
            proof {
                lemma_note_name_len(note, flat);
            }
            let padded = format_note(note, string_char, flat);
            push_marked_cell(
                &mut r,
                fret,
                &padded,
                string_char,
                Ghost(spec_note_name(note, flat)),
            );
        } else {
            push_empty_cell(&mut r, fret, string_char);
        }
        proof {
            assert(r@ == cells_so_far + spec_string_cell(
                fret as int,
                notes_in_scale@,
                *string,
                string_char,
                flat,
            ));
        }
        fret += 1;
    }
    r.push('|');
    proof {
        assert(r@ =~= spec_string_line(
            starting_fret as int,
            notes_in_scale@,
            *string,
            string_char,
            flat,
        ));
    }
    r
}

/// Renders the ruler line of the diagram: each fret number of the window
/// centered with spaces in its cell, closed by a trailing `|`.
pub fn build_fret_num_string(starting_fret: usize) -> (r: String)
    requires
        starting_fret + FRET_SPAN <= NUM_FRETS + 1,
    ensures
        r@ == spec_fret_num_line(starting_fret as int),
{
    let mut r = String::new();
    let mut fret: usize = starting_fret;
    while fret < starting_fret + FRET_SPAN
        invariant
            starting_fret <= fret <= starting_fret + FRET_SPAN,
            starting_fret + FRET_SPAN <= NUM_FRETS + 1,
            r@ == spec_ruler_cells(starting_fret as int, fret - starting_fret),
        decreases starting_fret + FRET_SPAN - fret,
    {
        let ghost cells_so_far = r@;
        if fret == 0 {
            push_empty_cell(&mut r, fret, ' ');
        } else {
            let padded = format_fret_num(fret);
            proof {
                assert(padded@ == spec_padded_label(spec_fret_num_label(fret as int), ' '));
            }
            push_marked_cell(&mut r, fret, &padded, ' ', Ghost(spec_fret_num_label(fret as int)));
        }
        proof {
            assert(r@ == cells_so_far + spec_ruler_cell(fret as int));
        }
        fret += 1;
    }
    r.push('|');
    proof {
        assert(r@ =~= spec_fret_num_line(starting_fret as int));
    }
    r
}

/// Renders the whole diagram for a tuning: one line per string with the
/// highest-pitched string first, then the fret-number ruler as the final
/// line.
pub fn build_fret_board(
    tuning: Tuning,
    starting_fret: usize,
    notes_in_scale: &[Note],
    flat: bool,
) -> (fret_board: Vec<String>)
    requires
        starting_fret + FRET_SPAN <= NUM_FRETS + 1,
    ensures
        fret_board@.len() == spec_tuning_notes(tuning).len() + 1,
        fret_board.deep_view() == spec_fret_board(
            tuning,
            starting_fret as int,
            notes_in_scale@,
            flat,
        ),
{
    proof {
        lemma_tuning_notes_len(tuning);
    }
    let mut fret_board: Vec<String> = Vec::new();
    let notes_in_tuning = get_notes_by_tuning(tuning);
    let n = notes_in_tuning.len();
    let mut j: usize = n;
    while j > 0
        invariant
            j <= n,
            n == spec_tuning_notes(tuning).len(),
            notes_in_tuning@ == spec_tuning_notes(tuning),
            6 <= n <= 7,
            starting_fret + FRET_SPAN <= NUM_FRETS + 1,
            fret_board@.len() == n - j,
            forall|i: int|
                0 <= i < n - j ==> (#[trigger] fret_board@[i])@ == spec_string_line(
                    starting_fret as int,
                    notes_in_scale@,
                    spec_tuning_notes(tuning)[n - 1 - i],
                    spec_string_fill(n as int, n - 1 - i),
                    flat,
                ),
        decreases j,
    {
        j -= 1;
        let string_char = if j < n - NUM_THIN_STRINGS {
            '='
        } else {
            '-'
        };
        let line = build_fret_board_string(
            starting_fret,
            notes_in_scale,
            &notes_in_tuning[j],
            string_char,
            flat,
        );
        fret_board.push(line);
    }
    let fret_num_string = build_fret_num_string(starting_fret);
    fret_board.push(fret_num_string);
    proof {
        assert(fret_board.deep_view() =~~= spec_fret_board(
            tuning,
            starting_fret as int,
            notes_in_scale@,
            flat,
        ));
    }
    fret_board
}

/// Centering parity law: for every cell width the taper table can hold, the
/// fill counts on the two sides of a label leave exactly the label's nominal
/// width of 2 free.
pub proof fn lemma_centering_parity(w: int)
    requires
        5 <= w <= 10,
    ensures
        spec_left_pad(w) + spec_right_pad(w) == w - 2,
{
}

/// Label width law: a one-character label widens to exactly two characters,
/// the label and then the fill character; a two-character label stands
/// unchanged. Either way the result fills the nominal width of 2.
pub proof fn lemma_padded_label_width(label: Seq<char>, fill: char)
    requires
        1 <= label.len() <= 2,
    ensures
        spec_padded_label(label, fill).len() == 2,
        label.len() == 1 ==> spec_padded_label(label, fill) == label.push(fill),
        label.len() == 2 ==> spec_padded_label(label, fill) == label,
{
}

/// Cell width law for string lines: the cell at fret 0 prints exactly 2
/// characters; the cell at any later fret prints exactly the taper width,
/// after its one-character leading separator — whether or not the fret's
/// note is in the scale.
pub proof fn lemma_string_cell_width(
    fret: int,
    scale: Seq<Note>,
    open_note: Note,
    fill: char,
    flat: bool,
)
    requires
        0 <= fret <= 24,
    ensures
        fret == 0 ==> spec_string_cell(fret, scale, open_note, fill, flat).len() == 2,
        fret >= 1 ==> spec_string_cell(fret, scale, open_note, fill, flat).len() == 1
            + spec_fret_width(fret),
{
    lemma_note_name_len(spec_fret_note(open_note, fret), flat);
    lemma_padded_label_width(spec_note_name(spec_fret_note(open_note, fret), flat), fill);
    if fret >= 1 {
        lemma_centering_parity(spec_fret_width(fret));
    }
}

/// Cell width law for the ruler line: the fret 0 slot prints exactly 2
/// characters; the cell at any later fret prints exactly the taper width,
/// after its one-character leading separator.
pub proof fn lemma_ruler_cell_width(fret: int)
    requires
        0 <= fret <= 24,
    ensures
        fret == 0 ==> spec_ruler_cell(fret).len() == 2,
        fret >= 1 ==> spec_ruler_cell(fret).len() == 1 + spec_fret_width(fret),
{
    if fret >= 1 {
        lemma_padded_label_width(spec_fret_num_label(fret), ' ');
        lemma_centering_parity(spec_fret_width(fret));
    }
}

/// The printed length of the first `count` cells of any line whose window
/// starts at `start`: 2 for the open-string slot, the taper width plus one
/// separator for every other fret.
pub open spec fn spec_cells_width(start: int, count: int) -> int
    decreases count,
{
    if count <= 0 {
        0
    } else {
        spec_cells_width(start, count - 1) + (if start + count - 1 == 0 {
            2int
        } else {
            1 + spec_fret_width(start + count - 1)
        })
    }
}

/// Line width law for string lines: a rendered string line is exactly as
/// long as its cells' taper widths and separators demand, plus the closing
/// `|` — the label never stretches or shrinks a cell.
pub proof fn lemma_string_line_len(
    start: int,
    scale: Seq<Note>,
    open_note: Note,
    fill: char,
    flat: bool,
)
    requires
        0 <= start && start + FRET_SPAN <= NUM_FRETS + 1,
    ensures
        spec_string_line(start, scale, open_note, fill, flat).len() == spec_cells_width(
            start,
            FRET_SPAN as int,
        ) + 1,
{
    lemma_string_cells_len(start, FRET_SPAN as int, scale, open_note, fill, flat);
}

proof fn lemma_string_cells_len(
    start: int,
    count: int,
    scale: Seq<Note>,
    open_note: Note,
    fill: char,
    flat: bool,
)
    requires
        0 <= start,
        start + count <= NUM_FRETS + 1,
    ensures
        spec_string_cells(start, count, scale, open_note, fill, flat).len() == spec_cells_width(
            start,
            count,
        ),
    decreases count,
{
    if count > 0 {
        lemma_string_cells_len(start, count - 1, scale, open_note, fill, flat);
        lemma_string_cell_width(start + count - 1, scale, open_note, fill, flat);
    }
}

/// Line width law for the ruler: the ruler line is exactly as long as every
/// string line of the same window.
pub proof fn lemma_ruler_line_len(start: int)
    requires
        0 <= start && start + FRET_SPAN <= NUM_FRETS + 1,
    ensures
        spec_fret_num_line(start).len() == spec_cells_width(start, FRET_SPAN as int) + 1,
{
    lemma_ruler_cells_len(start, FRET_SPAN as int);
}

proof fn lemma_ruler_cells_len(start: int, count: int)
    requires
        0 <= start,
        start + count <= NUM_FRETS + 1,
    ensures
        spec_ruler_cells(start, count).len() == spec_cells_width(start, count),
    decreases count,
{
    if count > 0 {
        lemma_ruler_cells_len(start, count - 1);
        lemma_ruler_cell_width(start + count - 1);
    }
}

/// Determinism law: the diagram is a pure function of the tuning, the window
/// start, the scale set and the accidental preference; two renderings of the
/// same arguments are the same sequence of lines.
pub proof fn lemma_render_deterministic(
    a: Seq<Seq<char>>,
    b: Seq<Seq<char>>,
    tuning: Tuning,
    start: int,
    scale: Seq<Note>,
    flat: bool,
)
    requires
        a == spec_fret_board(tuning, start, scale, flat),
        b == spec_fret_board(tuning, start, scale, flat),
    ensures
        a == b,
{
}

/// String ordering law: the diagram's first line belongs to the tuning's
/// last (highest-pitched) string and is drawn thin, its last string line
/// belongs to the first (lowest-pitched) entry and is drawn thick, and the
/// final line is the ruler.
pub proof fn lemma_string_order(tuning: Tuning, start: int, scale: Seq<Note>, flat: bool)
    ensures
        spec_fret_board(tuning, start, scale, flat).len() == spec_tuning_notes(tuning).len() + 1,
        spec_fret_board(tuning, start, scale, flat)[0] == spec_string_line(
            start,
            scale,
            spec_tuning_notes(tuning).last(),
            '-',
            flat,
        ),
        spec_fret_board(tuning, start, scale, flat)[spec_tuning_notes(tuning).len() - 1]
            == spec_string_line(start, scale, spec_tuning_notes(tuning)[0], '=', flat),
        spec_fret_board(tuning, start, scale, flat)[spec_tuning_notes(tuning).len() as int]
            == spec_fret_num_line(start),
{
    lemma_tuning_notes_len(tuning);
}

} // verus!
