pub mod fret_board;
pub mod notes;
pub mod scales;
pub mod tunings;
