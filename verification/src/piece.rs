//! Shapes, their masks and their quarter turns.

use vstd::prelude::*;
use crate::color::BlockColor;
use crate::error::TetrisError;

verus! {

/// Side of the square mask that holds a shape.
pub const PIECE_SIDE: usize = 4;

/// Occupancy mask of a shape, indexed `[row][column]`; a cell is occupied
/// when it holds 1.
pub type PieceGrid = [[u8; PIECE_SIDE]; PIECE_SIDE];

/// Two masks that agree cell by cell are the same mask.
pub proof fn lemma_grid_equal(a: PieceGrid, b: PieceGrid)
    requires
        forall|x: int, y: int|
            0 <= x < PIECE_SIDE && 0 <= y < PIECE_SIDE ==> #[trigger] a[y][x] == b[y][x],
    ensures
        a == b,
{
    assert forall|y: int| 0 <= y < PIECE_SIDE implies a[y] == b[y] by {
        assert forall|x: int| 0 <= x < PIECE_SIDE implies a[y][x] == b[y][x] by {}
        assert(a[y] =~= b[y]);
    }
    assert(a =~= b);
}

/// One of the four quarter-turn states of a piece. Turning clockwise walks
/// North, East, South, West and back to North.
#[derive(Clone, Copy, Debug, PartialEq, Eq, Structural)]
pub enum PieceRotation {
    North,
    East,
    South,
    West,
}

impl PieceRotation {
    /// The orientation one clockwise quarter turn further.
    pub open spec fn next_cw(self) -> PieceRotation {
        match self {
            PieceRotation::North => PieceRotation::East,
            PieceRotation::East => PieceRotation::South,
            PieceRotation::South => PieceRotation::West,
            PieceRotation::West => PieceRotation::North,
        }
    }

    /// The orientation one counter-clockwise quarter turn further.
    pub open spec fn next_ccw(self) -> PieceRotation {
        match self {
            PieceRotation::North => PieceRotation::West,
            PieceRotation::West => PieceRotation::South,
            PieceRotation::South => PieceRotation::East,
            PieceRotation::East => PieceRotation::North,
        }
    }

    /// The orientation reached by turning to `self` first and then as far
    /// again as `then` lies from North.
    pub open spec fn compose(self, then: PieceRotation) -> PieceRotation {
        match then {
            PieceRotation::North => self,
            PieceRotation::East => self.next_cw(),
            PieceRotation::South => self.next_cw().next_cw(),
            PieceRotation::West => self.next_ccw(),
        }
    }

    /// Successor in the clockwise cycle.
    pub fn clockwise(self) -> (next: PieceRotation)
        ensures
            next == self.next_cw(),
    {
        match self {
            PieceRotation::North => PieceRotation::East,
            PieceRotation::East => PieceRotation::South,
            PieceRotation::South => PieceRotation::West,
            PieceRotation::West => PieceRotation::North,
        }
    }

    /// Successor in the counter-clockwise cycle, the inverse of `clockwise`.
    pub fn counterclockwise(self) -> (next: PieceRotation)
        ensures
            next == self.next_ccw(),
    {
        match self {
            PieceRotation::North => PieceRotation::West,
            PieceRotation::West => PieceRotation::South,
            PieceRotation::South => PieceRotation::East,
            PieceRotation::East => PieceRotation::North,
        }
    }
}

/// The seven standard tetrominoes.
#[derive(Clone, Copy, Debug, PartialEq, Eq, Structural)]
pub enum PieceKind {
    I,
    L,
    J,
    O,
    S,
    Z,
    T,
}

/// A shape of the catalog: its mask in some orientation, its colour, and the
/// box, anchored at the mask's top-left corner, that the shape turns in.
#[derive(Clone, Copy, Debug, PartialEq, Eq)]
pub struct TetrisPieceData {
    pub kind: PieceKind,
    pub data: PieceGrid,
    pub color: BlockColor,
    pub width: usize,
    pub height: usize,
}

impl TetrisPieceData {
    /// The box lies within the mask.
    pub open spec fn box_fits(self) -> bool {
        self.width <= PIECE_SIDE && self.height <= PIECE_SIDE
    }

    /// Whether the cell at column `x`, row `y` of the mask is occupied.
    pub open spec fn occupied(self, x: int, y: int) -> bool {
        0 <= x < PIECE_SIDE && 0 <= y < PIECE_SIDE && self.data[y][x] == 1
    }

    /// 1 where the cell at column `x`, row `y` is occupied, else 0.
    pub open spec fn filled(self, x: int, y: int) -> int {
        if self.occupied(x, y) {
            1
        } else {
            0
        }
    }

    /// Number of occupied cells among the first `upto` columns of row `y`.
    pub open spec fn row_count(self, y: int, upto: int) -> int
        decreases upto,
    {
        if upto <= 0 {
            0
        } else {
            self.row_count(y, upto - 1) + self.filled(upto - 1, y)
        }
    }

    /// Number of occupied cells in the first `upto` rows.
    pub open spec fn rows_count(self, upto: int) -> int
        decreases upto,
    {
        if upto <= 0 {
            0
        } else {
            self.rows_count(upto - 1) + self.row_count(upto - 1, PIECE_SIDE as int)
        }
    }

    /// Number of occupied cells of the mask.
    pub open spec fn occupied_count(self) -> int {
        self.rows_count(PIECE_SIDE as int)
    }

    /// Every cell holds 0 or 1.
    pub open spec fn binary(self) -> bool {
        forall|x: int, y: int|
            0 <= x < PIECE_SIDE && 0 <= y < PIECE_SIDE ==> #[trigger] self.data[y][x] <= 1
    }

    /// Every occupied cell lies in the declared box.
    pub open spec fn box_covers_mask(self) -> bool {
        forall|x: int, y: int| #[trigger] self.occupied(x, y) ==> x < self.width && y < self.height
    }

    /// Row `y` of the mask holds an occupied cell.
    pub open spec fn row_occupied(self, y: int) -> bool {
        self.occupied(0, y) || self.occupied(1, y) || self.occupied(2, y) || self.occupied(3, y)
    }

    /// Column `x` of the mask holds an occupied cell.
    pub open spec fn column_occupied(self, x: int) -> bool {
        self.occupied(x, 0) || self.occupied(x, 1) || self.occupied(x, 2) || self.occupied(x, 3)
    }

    /// The shape touches all four sides of the declared box: its first and
    /// last row and its first and last column each hold an occupied cell.
    pub open spec fn box_is_tight(self) -> bool {
        &&& self.row_occupied(0)
        &&& self.column_occupied(0)
        &&& self.row_occupied(self.height - 1)
        &&& self.column_occupied(self.width - 1)
    }

    /// A well-formed catalog entry: the declared box is the box of the
    /// occupied cells, anchored at the mask's top-left corner; cells hold 0
    /// or 1; and exactly four of them are occupied.
    pub open spec fn wf(self) -> bool {
        &&& self.box_fits()
        &&& self.binary()
        &&& self.box_covers_mask()
        &&& self.box_is_tight()
        &&& self.occupied_count() == 4
    }

    /// Width of the box after turning to `rotation`.
    pub open spec fn rotated_width(self, rotation: PieceRotation) -> usize {
        match rotation {
            PieceRotation::North | PieceRotation::South => self.width,
            PieceRotation::East | PieceRotation::West => self.height,
        }
    }

    /// Height of the box after turning to `rotation`.
    pub open spec fn rotated_height(self, rotation: PieceRotation) -> usize {
        match rotation {
            PieceRotation::North | PieceRotation::South => self.height,
            PieceRotation::East | PieceRotation::West => self.width,
        }
    }

    /// Column of this mask that lands on column `x`, row `y` when the box is
    /// turned to `rotation`.
    pub open spec fn source_x(self, rotation: PieceRotation, x: int, y: int) -> int {
        match rotation {
            PieceRotation::North => x,
            PieceRotation::East => y,
            PieceRotation::South => self.width - 1 - x,
            PieceRotation::West => self.width - 1 - y,
        }
    }

    /// Row of this mask that lands on column `x`, row `y` when the box is
    /// turned to `rotation`.
    pub open spec fn source_y(self, rotation: PieceRotation, x: int, y: int) -> int {
        match rotation {
            PieceRotation::North => y,
            PieceRotation::East => self.height - 1 - x,
            PieceRotation::South => self.height - 1 - y,
            PieceRotation::West => x,
        }
    }

    /// The cell at column `x`, row `y` of the mask turned to `rotation`: inside
    /// the turned box the cell that the turn carries there, 0 outside it.
    /// A clockwise quarter turn (East) carries the cell at `(cx, cy)` to
    /// `(height - 1 - cy, cx)`, a counter-clockwise one (West) to
    /// `(cy, width - 1 - cx)`, a half turn (South) to
    /// `(width - 1 - cx, height - 1 - cy)`.
    pub open spec fn rotated_cell(self, rotation: PieceRotation, x: int, y: int) -> u8 {
        if 0 <= x < self.rotated_width(rotation) && 0 <= y < self.rotated_height(rotation) {
            self.data[self.source_y(rotation, x, y)][self.source_x(rotation, x, y)]
        } else {
            0
        }
    }

    /// The mask turned to `rotation`.
    pub open spec fn rotated_data(self, rotation: PieceRotation) -> PieceGrid {
        [
            [
                self.rotated_cell(rotation, 0, 0),
                self.rotated_cell(rotation, 1, 0),
                self.rotated_cell(rotation, 2, 0),
                self.rotated_cell(rotation, 3, 0),
            ],
            [
                self.rotated_cell(rotation, 0, 1),
                self.rotated_cell(rotation, 1, 1),
                self.rotated_cell(rotation, 2, 1),
                self.rotated_cell(rotation, 3, 1),
            ],
            [
                self.rotated_cell(rotation, 0, 2),
                self.rotated_cell(rotation, 1, 2),
                self.rotated_cell(rotation, 2, 2),
                self.rotated_cell(rotation, 3, 2),
            ],
            [
                self.rotated_cell(rotation, 0, 3),
                self.rotated_cell(rotation, 1, 3),
                self.rotated_cell(rotation, 2, 3),
                self.rotated_cell(rotation, 3, 3),
            ],
        ]
    }

    /// The shape turned to `rotation`: the turned mask in the turned box,
    /// kind and colour kept.
    pub open spec fn rotated(self, rotation: PieceRotation) -> TetrisPieceData {
        TetrisPieceData {
            kind: self.kind,
            data: self.rotated_data(rotation),
            color: self.color,
            width: self.rotated_width(rotation),
            height: self.rotated_height(rotation),
        }
    }

    /// Indexing the turned mask gives the turned cell.
    pub proof fn lemma_rotated_data_cells(self, rotation: PieceRotation)
        ensures
            forall|x: int, y: int|
                0 <= x < PIECE_SIDE && 0 <= y < PIECE_SIDE ==> #[trigger] self.rotated_data(
                    rotation,
                )[y][x] == self.rotated_cell(rotation, x, y),
    {
    }

    /// Tests whether row `y` of the mask holds an occupied cell.
    fn row_has_cell(&self, y: usize) -> (found: bool)
        requires
            y < PIECE_SIDE,
        ensures
            found == self.row_occupied(y as int),
    {
        self.data[y][0] == 1 || self.data[y][1] == 1 || self.data[y][2] == 1 || self.data[y][3]
            == 1
    }

    /// Tests whether column `x` of the mask holds an occupied cell.
    fn column_has_cell(&self, x: usize) -> (found: bool)
        requires
            x < PIECE_SIDE,
        ensures
            found == self.column_occupied(x as int),
    {
        self.data[0][x] == 1 || self.data[1][x] == 1 || self.data[2][x] == 1 || self.data[3][x]
            == 1
    }

    /// Checks a catalog entry: `Ok` exactly for a well-formed one.
    pub fn validate(&self) -> (checked: Result<(), TetrisError>)
        ensures
            checked is Ok <==> self.wf(),
            checked is Err ==> checked == Err::<(), TetrisError>(
                TetrisError::MalformedCatalogEntry,
            ),
    {
        if self.width > PIECE_SIDE || self.height > PIECE_SIDE {
            return Err(TetrisError::MalformedCatalogEntry);
        }
        let mut count: usize = 0;
        for y in 0..PIECE_SIDE
            invariant
                count == self.rows_count(y as int),
                count <= PIECE_SIDE * y,
                forall|cx: int, cy: int|
                    0 <= cx < PIECE_SIDE && 0 <= cy < y ==> #[trigger] self.data[cy][cx] <= 1,
                forall|cx: int, cy: int|
                    #[trigger] self.occupied(cx, cy) && cy < y ==> cx < self.width && cy
                        < self.height,
        {
            for x in 0..PIECE_SIDE
                invariant
                    y < PIECE_SIDE,
                    count == self.rows_count(y as int) + self.row_count(y as int, x as int),
                    count <= PIECE_SIDE * y + x,
                    forall|cx: int, cy: int|
                        0 <= cx < PIECE_SIDE && (0 <= cy < y || (cy == y && cx < x))
                            ==> #[trigger] self.data[cy][cx] <= 1,
                    forall|cx: int, cy: int|
                        #[trigger] self.occupied(cx, cy) && (cy < y || (cy == y && cx < x)) ==> cx
                            < self.width && cy < self.height,
            {
                let cell: u8 = self.data[y][x];
                if cell > 1 {
                    return Err(TetrisError::MalformedCatalogEntry);
                }
                if cell == 1 {
                    if x >= self.width || y >= self.height {
                        assert(self.occupied(x as int, y as int));
                        return Err(TetrisError::MalformedCatalogEntry);
                    }
                    count = count + 1;
                }
            }
        }
        if count != 4 || self.width == 0 || self.height == 0 {
            return Err(TetrisError::MalformedCatalogEntry);
        }
        if self.row_has_cell(0) && self.column_has_cell(0) && self.row_has_cell(self.height - 1)
            && self.column_has_cell(self.width - 1) {
            Ok(())
        } else {
            Err(TetrisError::MalformedCatalogEntry)
        }
    }

    /// Turns the shape to `rotation`, starting from the orientation it is
    /// stored in.
    pub fn get_data(self, rotation: &PieceRotation) -> (rotated_piece: TetrisPieceData)
        requires
            self.box_fits(),
        ensures
            rotated_piece == self.rotated(*rotation),
    {
        let width: usize = match rotation {
            PieceRotation::North => self.width,
            PieceRotation::West => self.height,
            PieceRotation::South => self.width,
            PieceRotation::East => self.height,
        };
        let height: usize = match rotation {
            PieceRotation::North => self.height,
            PieceRotation::West => self.width,
            PieceRotation::South => self.height,
            PieceRotation::East => self.width,
        };
        let mut data: PieceGrid = [[0; PIECE_SIDE]; PIECE_SIDE];

        for y in 0..self.height
            invariant
                self.box_fits(),
                forall|gx: int, gy: int|
                    0 <= gx < PIECE_SIDE && 0 <= gy < PIECE_SIDE ==> #[trigger] data[gy][gx] == (
                    if self.source_y(*rotation, gx, gy) < y {
                        self.rotated_cell(*rotation, gx, gy)
                    } else {
                        0
                    }),
        {
            for x in 0..self.width
                invariant
                    self.box_fits(),
                    y < self.height,
                    forall|gx: int, gy: int|
                        0 <= gx < PIECE_SIDE && 0 <= gy < PIECE_SIDE ==> #[trigger] data[gy][gx]
                            == (if self.source_y(*rotation, gx, gy) < y || (self.source_y(
                            *rotation,
                            gx,
                            gy,
                        ) == y && self.source_x(*rotation, gx, gy) < x) {
                            self.rotated_cell(*rotation, gx, gy)
                        } else {
                            0
                        }),
            {
                let grid_y: usize = match rotation {
                    PieceRotation::North => y,
                    PieceRotation::East => x,
                    PieceRotation::South => self.height - y - 1,
                    PieceRotation::West => self.width - x - 1,
                };
                let grid_x: usize = match rotation {
                    PieceRotation::North => x,
                    PieceRotation::East => self.height - y - 1,
                    PieceRotation::South => self.width - x - 1,
                    PieceRotation::West => y,
                };

                data[grid_y][grid_x] = self.data[y][x];
            }
        }
        let rotated_piece = TetrisPieceData { kind: self.kind, data, color: self.color, width, height };
        proof {
            self.lemma_rotated_data_cells(*rotation);
            lemma_grid_equal(data, self.rotated_data(*rotation));
        }
        rotated_piece
    }
}

} // verus!
