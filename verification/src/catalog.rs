//! The seven catalog entries, in the fixed order in which a new game picks
//! among them.

use vstd::prelude::*;
use crate::color::BlockColor;
use crate::piece::{PieceGrid, PieceKind, TetrisPieceData};

verus! {

/// Number of catalog entries.
pub const NUM_TETRISPIECES: usize = 7;

pub const IPIECE_DATA: PieceGrid = [[1, 1, 1, 1], [0, 0, 0, 0], [0, 0, 0, 0], [0, 0, 0, 0]];

pub const LPIECE_DATA: PieceGrid = [[0, 0, 1, 0], [1, 1, 1, 0], [0, 0, 0, 0], [0, 0, 0, 0]];

pub const JPIECE_DATA: PieceGrid = [[1, 0, 0, 0], [1, 1, 1, 0], [0, 0, 0, 0], [0, 0, 0, 0]];

pub const OPIECE_DATA: PieceGrid = [[1, 1, 0, 0], [1, 1, 0, 0], [0, 0, 0, 0], [0, 0, 0, 0]];

pub const SPIECE_DATA: PieceGrid = [[0, 1, 1, 0], [1, 1, 0, 0], [0, 0, 0, 0], [0, 0, 0, 0]];

pub const ZPIECE_DATA: PieceGrid = [[1, 1, 0, 0], [0, 1, 1, 0], [0, 0, 0, 0], [0, 0, 0, 0]];

pub const TPIECE_DATA: PieceGrid = [[0, 1, 0, 0], [1, 1, 1, 0], [0, 0, 0, 0], [0, 0, 0, 0]];

/// The catalog: each kind once, facing North, in the order I, L, J, O, S, Z, T.
pub open spec fn catalog() -> [TetrisPieceData; NUM_TETRISPIECES] {
    [
        TetrisPieceData {
            kind: PieceKind::I,
            data: IPIECE_DATA,
            color: BlockColor::Red,
            width: 4,
            height: 1,
        },
        TetrisPieceData {
            kind: PieceKind::L,
            data: LPIECE_DATA,
            color: BlockColor::Yellow,
            width: 3,
            height: 2,
        },
        TetrisPieceData {
            kind: PieceKind::J,
            data: JPIECE_DATA,
            color: BlockColor::Orange,
            width: 3,
            height: 2,
        },
        TetrisPieceData {
            kind: PieceKind::O,
            data: OPIECE_DATA,
            color: BlockColor::Cyan,
            width: 2,
            height: 2,
        },
        TetrisPieceData {
            kind: PieceKind::S,
            data: SPIECE_DATA,
            color: BlockColor::Green,
            width: 3,
            height: 2,
        },
        TetrisPieceData {
            kind: PieceKind::Z,
            data: ZPIECE_DATA,
            color: BlockColor::Magenta,
            width: 3,
            height: 2,
        },
        TetrisPieceData {
            kind: PieceKind::T,
            data: TPIECE_DATA,
            color: BlockColor::Blue,
            width: 3,
            height: 2,
        },
    ]
}

/// The seven piece definitions, in catalog order.
pub fn definitions() -> (pieces: [TetrisPieceData; NUM_TETRISPIECES])
    ensures
        pieces == catalog(),
{
    [
        TetrisPieceData {
            kind: PieceKind::I,
            data: IPIECE_DATA,
            color: BlockColor::Red,
            width: 4,
            height: 1,
        },
        TetrisPieceData {
            kind: PieceKind::L,
            data: LPIECE_DATA,
            color: BlockColor::Yellow,
            width: 3,
            height: 2,
        },
        TetrisPieceData {
            kind: PieceKind::J,
            data: JPIECE_DATA,
            color: BlockColor::Orange,
            width: 3,
            height: 2,
        },
        TetrisPieceData {
            kind: PieceKind::O,
            data: OPIECE_DATA,
            color: BlockColor::Cyan,
            width: 2,
            height: 2,
        },
        TetrisPieceData {
            kind: PieceKind::S,
            data: SPIECE_DATA,
            color: BlockColor::Green,
            width: 3,
            height: 2,
        },
        TetrisPieceData {
            kind: PieceKind::Z,
            data: ZPIECE_DATA,
            color: BlockColor::Magenta,
            width: 3,
            height: 2,
        },
        TetrisPieceData {
            kind: PieceKind::T,
            data: TPIECE_DATA,
            color: BlockColor::Blue,
            width: 3,
            height: 2,
        },
    ]
}

/// Every catalog entry is well formed: its box is the box of its occupied
/// cells and it has exactly four of them.
pub proof fn lemma_catalog_wf()
    ensures
        forall|i: int| 0 <= i < NUM_TETRISPIECES ==> (#[trigger] catalog()[i]).wf(),
        forall|i: int| 0 <= i < NUM_TETRISPIECES ==> (#[trigger] catalog()[i]).occupied_count() == 4,
{
    reveal_with_fuel(TetrisPieceData::row_count, 5);
    reveal_with_fuel(TetrisPieceData::rows_count, 5);
    assert(catalog()[0].wf());
    assert(catalog()[1].wf());
    assert(catalog()[2].wf());
    assert(catalog()[3].wf());
    assert(catalog()[4].wf());
    assert(catalog()[5].wf());
    assert(catalog()[6].wf());
}

/// No two catalog entries share a kind or a colour, and none has the colour
/// of the empty background.
pub proof fn lemma_catalog_distinct()
    ensures
        forall|i: int, j: int|
            0 <= i < j < NUM_TETRISPIECES ==> (#[trigger] catalog()[i]).kind != (
            #[trigger] catalog()[j]).kind && catalog()[i].color != catalog()[j].color,
        forall|i: int| 0 <= i < NUM_TETRISPIECES ==> (#[trigger] catalog()[i]).color != BlockColor::Black,
{
}

} // verus!
