//! The playfield grid and the falling piece that is overlaid on it.

use vstd::prelude::*;
use crate::color::BlockColor;
use crate::piece::{PieceRotation, TetrisPieceData};

verus! {

/// Number of columns of the playfield.
pub const FIELD_WIDTH: usize = 10;

/// Number of rows of the playfield.
pub const FIELD_HEIGHT: usize = 20;

/// The piece under the player's control: a catalog shape, the orientation it
/// is turned to, and the field position of its mask's top-left corner.
#[derive(Clone, Copy, Debug, PartialEq, Eq)]
pub struct CurrentPiece {
    pub piece: TetrisPieceData,
    pub x: usize,
    pub y: usize,
    pub rotation: PieceRotation,
}

impl CurrentPiece {
    /// Width of the piece's box in its present orientation.
    pub open spec fn rotated_width(self) -> usize {
        self.piece.rotated_width(self.rotation)
    }

    /// Height of the piece's box in its present orientation.
    pub open spec fn rotated_height(self) -> usize {
        self.piece.rotated_height(self.rotation)
    }

    /// The piece's box, in its present orientation, lies inside the playfield.
    pub open spec fn in_bounds(self) -> bool {
        &&& self.x + self.rotated_width() <= FIELD_WIDTH
        &&& self.y + self.rotated_height() <= FIELD_HEIGHT
    }

    /// Width of the piece's box in its present orientation.
    pub fn bounding_width(&self) -> (w: usize)
        ensures
            w == self.rotated_width(),
    {
        match self.rotation {
            PieceRotation::North | PieceRotation::South => self.piece.width,
            PieceRotation::East | PieceRotation::West => self.piece.height,
        }
    }

    /// Height of the piece's box in its present orientation.
    pub fn bounding_height(&self) -> (h: usize)
        ensures
            h == self.rotated_height(),
    {
        match self.rotation {
            PieceRotation::North | PieceRotation::South => self.piece.height,
            PieceRotation::East | PieceRotation::West => self.piece.width,
        }
    }

    /// Tests whether the piece's box lies inside the playfield.
    pub fn fits(&self) -> (inside: bool)
        ensures
            inside == self.in_bounds(),
    {
        let w: usize = self.bounding_width();
        let h: usize = self.bounding_height();
        w <= FIELD_WIDTH && self.x <= FIELD_WIDTH - w && h <= FIELD_HEIGHT && self.y
            <= FIELD_HEIGHT - h
    }

    /// Whether the piece, turned and placed, occupies the field cell at column
    /// `x`, row `y`.
    pub open spec fn covers(self, x: int, y: int) -> bool {
        self.piece.rotated(self.rotation).occupied(x - self.x, y - self.y)
    }
}

/// The grid of settled cells, indexed `[row][column]`.
#[derive(Clone, Copy, Debug, PartialEq, Eq)]
pub struct Playfield {
    pub data: [[BlockColor; FIELD_WIDTH]; FIELD_HEIGHT],
}

impl View for Playfield {
    type V = Seq<Seq<BlockColor>>;

    /// The rows from top to bottom, each from left to right.
    open spec fn view(&self) -> Seq<Seq<BlockColor>> {
        Seq::new(FIELD_HEIGHT as nat, |y: int| self.data[y]@)
    }
}

impl Playfield {
    /// The colour at column `x`, row `y`.
    pub open spec fn at(self, x: int, y: int) -> BlockColor {
        self.data[y][x]
    }

    /// Every cell is empty.
    pub open spec fn is_empty(self) -> bool {
        forall|x: int, y: int|
            0 <= x < FIELD_WIDTH && 0 <= y < FIELD_HEIGHT ==> #[trigger] self.at(x, y)
                == BlockColor::Black
    }

    /// The colour shown at column `x`, row `y` once `current` is laid over
    /// this field: the piece's colour where the piece is, the field's own
    /// elsewhere.
    pub open spec fn overlaid_at(self, current: CurrentPiece, x: int, y: int) -> BlockColor {
        if current.covers(x, y) {
            current.piece.color
        } else {
            self.at(x, y)
        }
    }

    /// This field with `current` laid over it, as rows of colours.
    pub open spec fn overlaid(self, current: CurrentPiece) -> Seq<Seq<BlockColor>> {
        Seq::new(
            FIELD_HEIGHT as nat,
            |y: int| Seq::new(FIELD_WIDTH as nat, |x: int| self.overlaid_at(current, x, y)),
        )
    }

    /// Two fields with the same rows are the same field.
    pub proof fn lemma_view_injective(self, other: Playfield)
        requires
            self@ == other@,
        ensures
            self == other,
    {
        assert forall|y: int| 0 <= y < FIELD_HEIGHT implies self.data[y] == other.data[y] by {
            assert(self@[y] == other@[y]);
            assert(self.data[y]@ == other.data[y]@);
            assert(self.data[y] =~= other.data[y]);
        }
        assert(self.data =~= other.data);
    }

    /// Stamps `current` onto the field: every field cell under an occupied
    /// cell of the turned mask takes the piece's colour, the others keep
    /// theirs.
    pub fn draw(&mut self, current: &CurrentPiece)
        requires
            current.piece.box_fits(),
            current.in_bounds(),
        ensures
            final(self)@ == old(self).overlaid(*current),
    {
        let ghost before = *self;
        let rotated_piece = current.piece.get_data(&current.rotation);
        proof {
            current.piece.lemma_rotated_data_cells(current.rotation);
        }

        for y in 0..rotated_piece.height
            invariant
                current.piece.box_fits(),
                current.in_bounds(),
                rotated_piece == current.piece.rotated(current.rotation),
                forall|fx: int, fy: int|
                    0 <= fx < FIELD_WIDTH && 0 <= fy < FIELD_HEIGHT ==> #[trigger] self.at(fx, fy)
                        == (if current.covers(fx, fy) && fy - current.y < y {
                        current.piece.color
                    } else {
                        before.at(fx, fy)
                    }),
        {
            for x in 0..rotated_piece.width
                invariant
                    current.piece.box_fits(),
                    current.in_bounds(),
                    rotated_piece == current.piece.rotated(current.rotation),
                    y < rotated_piece.height,
                    forall|fx: int, fy: int|
                        0 <= fx < FIELD_WIDTH && 0 <= fy < FIELD_HEIGHT ==> #[trigger] self.at(
                            fx,
                            fy,
                        ) == (if current.covers(fx, fy) && (fy - current.y < y || (fy - current.y
                            == y && fx - current.x < x)) {
                            current.piece.color
                        } else {
                            before.at(fx, fy)
                        }),
            {
                let ghost cell_before = *self;
                if rotated_piece.data[y][x] == 1 {
                    self.data[y + current.y][x + current.x] = current.piece.color;
                }
                proof {
                    assert forall|fx: int, fy: int|
                        0 <= fx < FIELD_WIDTH && 0 <= fy < FIELD_HEIGHT implies #[trigger] self.at(
                        fx,
                        fy,
                    ) == (if fx == x + current.x && fy == y + current.y && current.covers(fx, fy) {
                        current.piece.color
                    } else {
                        cell_before.at(fx, fy)
                    }) by {}
                }
            }
        }
        proof {
            assert forall|fx: int, fy: int|
                0 <= fx < FIELD_WIDTH && 0 <= fy < FIELD_HEIGHT implies self.at(fx, fy)
                == before.overlaid_at(*current, fx, fy) by {}
            assert(self@ =~~= before.overlaid(*current));
        }
    }

    /// Number of columns.
    pub fn width(self) -> (w: usize)
        ensures
            w == FIELD_WIDTH,
    {
        FIELD_WIDTH
    }

    /// Number of rows.
    pub fn height(self) -> (h: usize)
        ensures
            h == FIELD_HEIGHT,
    {
        FIELD_HEIGHT
    }

    /// The cells, indexed `[row][column]`.
    pub fn get_data(self) -> (cells: [[BlockColor; FIELD_WIDTH]; FIELD_HEIGHT])
        ensures
            cells == self.data,
    {
        self.data
    }
}

/// A playfield with every cell empty.
pub fn empty_field() -> (field: Playfield)
    ensures
        field.is_empty(),
{
    Playfield { data: [[BlockColor::Black; FIELD_WIDTH]; FIELD_HEIGHT] }
}

} // verus!
