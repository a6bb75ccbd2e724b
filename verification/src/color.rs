//! The palette shared by playfield cells and pieces.

use vstd::prelude::*;

verus! {

/// What a cell of the playfield holds. `Black` is the empty background; every
/// other colour belongs to exactly one kind of piece.
#[derive(Clone, Copy, Debug, PartialEq, Eq, Structural)]
pub enum BlockColor {
    Black,
    Red,
    Blue,
    Yellow,
    Green,
    Magenta,
    Cyan,
    Orange,
}

} // verus!
