use daily_scale::fret_board::{
    build_fret_board, build_fret_board_string, build_fret_num_string, format_fret_num,
    format_note, FRET_SPAN, NUM_FRETS,
};
use daily_scale::notes::Note;
use daily_scale::tunings::Tuning;

#[test]
fn test_format_note() {
    assert_eq!(format_note(Note::A, '-', true), "A-");
    assert_eq!(format_note(Note::CSharp, '=', false), "C#");
    assert_eq!(format_note(Note::GSharp, '-', true), "Ab");
}

#[test]
fn test_format_fret_num() {
    assert_eq!(format_fret_num(0), "0 ");
    assert_eq!(format_fret_num(14), "14");
}

#[test]
fn test_build_fret_board_string() {
    assert_eq!(
        build_fret_board_string(5, &[Note::A, Note::B, Note::C], &Note::E, '=', false),
        "|====A====|========|===B====|===C====|========|"
    );
    assert_eq!(
        build_fret_board_string(
            12,
            &[Note::DSharp, Note::E, Note::FSharp],
            &Note::D,
            '=',
            false
        ),
        "|=======|===D#==|===E===|======|==F#==|"
    );
    assert_eq!(
        build_fret_board_string(
            0,
            &[Note::B, Note::CSharp, Note::DSharp],
            &Note::B,
            '-',
            true
        ),
        "B-|----------|----Db----|---------|----Eb---|"
    );
}

#[test]
fn test_build_fret_num_string() {
    assert_eq!(
        build_fret_num_string(0),
        "  |    1     |    2     |    3    |    4    |"
    );
    assert_eq!(
        build_fret_num_string(12),
        "|   12  |   13  |   14  |  15  |  16  |"
    );
}

#[test]
fn test_build_fret_board() {
    assert_eq!(
        build_fret_board(
            Tuning::OpenG6,
            0,
            &[
                Note::A,
                Note::B,
                Note::C,
                Note::D,
                Note::E,
                Note::F,
                Note::GSharp
            ],
            false,
        ),
        vec![
            "D-|----------|----E-----|----F----|---------|",
            "B-|----C-----|----------|----D----|---------|",
            "--|----G#----|----A-----|---------|----B----|",
            "D=|==========|====E=====|====F====|=========|",
            "==|====G#====|====A=====|=========|====B====|",
            "D=|==========|====E=====|====F====|=========|",
            "  |    1     |    2     |    3    |    4    |",
        ]
    );
    assert_eq!(
        build_fret_board(
            Tuning::StandardB7,
            7,
            &[
                Note::A,
                Note::B,
                Note::CSharp,
                Note::D,
                Note::E,
                Note::FSharp,
                Note::G
            ],
            true,
        ),
        vec![
            "|---B----|--------|---Db---|---D---|-------|",
            "|---Gb---|---G----|--------|---A---|-------|",
            "|---D----|--------|---E----|-------|---Gb--|",
            "|===A====|========|===B====|=======|===Db==|",
            "|===E====|========|===Gb===|===G===|=======|",
            "|===B====|========|===Db===|===D===|=======|",
            "|===Gb===|===G====|========|===A===|=======|",
            "|   7    |   8    |   9    |   10  |   11  |",
        ]
    );
    assert_eq!(
        build_fret_board(
            Tuning::OpenE6,
            15,
            &[
                Note::A,
                Note::ASharp,
                Note::CSharp,
                Note::DSharp,
                Note::FSharp,
                Note::GSharp
            ],
            false,
        ),
        vec![
            "|------|--G#--|--A---|--A#--|------|",
            "|------|--D#--|------|------|--F#--|",
            "|------|------|--C#--|------|--D#--|",
            "|======|==G#==|==A===|==A#==|======|",
            "|======|==D#==|======|======|==F#==|",
            "|======|==G#==|==A===|==A#==|======|",
            "|  15  |  16  |  17  |  18  |  19  |"
        ]
    );
}

// The taper table's widths: the printed span of each cell beyond its leading
// separator, for a window that starts at the given fret.
fn expected_line_len(starting_fret: usize) -> usize {
    let widths = [
        0usize, 10, 10, 9, 9, 9, 8, 8, 8, 8, 7, 7, 7, 7, 7, 6, 6, 6, 6, 6, 6, 5, 5, 5, 5,
    ];
    let mut len = 1; // trailing '|'
    for fret in starting_fret..starting_fret + 5 {
        if fret == 0 {
            len += 2; // open-string slot, no separator
        } else {
            len += 1 + widths[fret]; // '|' plus the taper width
        }
    }
    len
}

#[test]
fn test_cell_widths_fill_taper_table() {
    // Every cell spans exactly the taper width, labeled or not.
    let scale = [Note::A, Note::B, Note::C, Note::D, Note::E];
    for start in [0usize, 1, 5, 12, 20] {
        let line = build_fret_board_string(start, &scale, &Note::E, '=', false);
        assert_eq!(line.len(), expected_line_len(start), "window at {}", start);
        let ruler = build_fret_num_string(start);
        assert_eq!(ruler.len(), expected_line_len(start), "ruler at {}", start);
    }
}

#[test]
fn test_centering_parity() {
    // A highlighted cell of width w holds left + right == w - 2 fill
    // characters around its two-character label.
    let line = build_fret_board_string(1, &[Note::F], &Note::E, '=', false);
    // Fret 1 on an E string is F, cell width 10: left 4, right 4.
    assert_eq!(line, "|====F=====|==========|=========|=========|=========|");
    let line = build_fret_board_string(3, &[Note::G], &Note::E, '=', false);
    // Fret 3 on an E string is G, cell width 9: left 4, right 3.
    assert_eq!(line, "|====G====|=========|=========|========|========|");
}

#[test]
fn test_render_is_deterministic() {
    let scale = [Note::C, Note::E, Note::G];
    let first = build_fret_board(Tuning::StandardE6, 3, &scale, false);
    let second = build_fret_board(Tuning::StandardE6, 3, &scale, false);
    assert_eq!(first, second);
}

#[test]
fn test_string_ordering() {
    let scale = [Note::D, Note::FSharp, Note::A];
    let board = build_fret_board(Tuning::DropD6, 2, &scale, false);
    assert_eq!(board.len(), 7);
    // First line: the tuning's last entry (high E), drawn thin.
    assert_eq!(
        board[0],
        build_fret_board_string(2, &scale, &Note::E, '-', false)
    );
    // Last string line: the tuning's first entry (low D), drawn thick.
    assert_eq!(
        board[5],
        build_fret_board_string(2, &scale, &Note::D, '=', false)
    );
    // Final line: the ruler.
    assert_eq!(board[6], build_fret_num_string(2));
}

#[test]
fn test_boundary_window() {
    // The highest allowed window start still renders five valid cells.
    let start = NUM_FRETS - FRET_SPAN + 1;
    assert_eq!(start, 20);
    let line = build_fret_board_string(start, &[Note::C], &Note::C, '=', false);
    assert_eq!(line.len(), expected_line_len(start));
    assert_eq!(build_fret_num_string(start), "|  20  |  21 |  22 |  23 |  24 |");
}
