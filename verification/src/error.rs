//! What the engine can refuse.

use vstd::prelude::*;

verus! {

/// The two ways in which a request to the engine can fail.
#[derive(Clone, Copy, Debug, PartialEq, Eq, Structural)]
pub enum TetrisError {
    /// The box of the falling piece, as it is turned and placed, does not lie
    /// inside the playfield.
    OutOfBounds,
    /// A shape whose declared box is not the box of its occupied cells, or
    /// that is no tetromino.
    MalformedCatalogEntry,
}

} // verus!
