//! The game state: the settled field, the falling piece, and the moves a
//! player makes on it.

use vstd::prelude::*;
use crate::catalog::{catalog, definitions, lemma_catalog_wf, NUM_TETRISPIECES};
use crate::error::TetrisError;
use crate::piece::{PieceRotation, TetrisPieceData, PIECE_SIDE};
use crate::playfield::{empty_field, CurrentPiece, Playfield};

verus! {

/// Column at which a new piece appears.
pub const SPAWN_X: usize = 5;

/// Row at which a new piece appears.
pub const SPAWN_Y: usize = 3;

/// One game session: its level, the settled cells, and the falling piece.
/// The moves change the falling piece alone; the settled field shows the
/// piece only in the composed view that `get_field` returns.
#[derive(Clone, Copy, Debug, PartialEq, Eq)]
pub struct TetrisState {
    pub level: u8,
    pub field: Playfield,
    pub current: CurrentPiece,
}

impl TetrisState {
    /// Whether this is the state in which a game at `level` starts when
    /// `piece` is the first to fall: nothing settled, the piece facing North
    /// at the spawn position.
    pub open spec fn is_new_game(self, level: u8, piece: TetrisPieceData) -> bool {
        &&& self.level == level
        &&& self.field.is_empty()
        &&& self.current == CurrentPiece {
            piece,
            x: SPAWN_X,
            y: SPAWN_Y,
            rotation: PieceRotation::North,
        }
    }

    /// The state after a clockwise quarter turn of the falling piece.
    pub open spec fn after_rotate_cw(self) -> TetrisState {
        TetrisState {
            current: CurrentPiece { rotation: self.current.rotation.next_cw(), ..self.current },
            ..self
        }
    }

    /// The state after a counter-clockwise quarter turn of the falling piece.
    pub open spec fn after_rotate_ccw(self) -> TetrisState {
        TetrisState {
            current: CurrentPiece { rotation: self.current.rotation.next_ccw(), ..self.current },
            ..self
        }
    }

    /// The state after the falling piece has moved one column to the left.
    pub open spec fn after_move_left(self) -> TetrisState {
        TetrisState {
            current: CurrentPiece { x: (self.current.x - 1) as usize, ..self.current },
            ..self
        }
    }

    /// The state after the falling piece has moved one column to the right.
    pub open spec fn after_move_right(self) -> TetrisState {
        TetrisState {
            current: CurrentPiece { x: (self.current.x + 1) as usize, ..self.current },
            ..self
        }
    }

    /// The state after the falling piece has dropped by one row.
    pub open spec fn after_drop(self) -> TetrisState {
        TetrisState {
            current: CurrentPiece { y: (self.current.y + 1) as usize, ..self.current },
            ..self
        }
    }

    /// Turns the falling piece a quarter turn counter-clockwise. Position and
    /// field stay; the box of the piece swaps its sides.
    pub fn rotate_ccw(&mut self)
        ensures
            *final(self) == old(self).after_rotate_ccw(),
    {
        self.current.rotation =
        match self.current.rotation {
            PieceRotation::North => PieceRotation::West,
            PieceRotation::West => PieceRotation::South,
            PieceRotation::South => PieceRotation::East,
            PieceRotation::East => PieceRotation::North,
        };
    }

    /// Turns the falling piece a quarter turn clockwise. Position and field
    /// stay; the box of the piece swaps its sides.
    pub fn rotate_cw(&mut self)
        ensures
            *final(self) == old(self).after_rotate_cw(),
    {
        self.current.rotation =
        match self.current.rotation {
            PieceRotation::North => PieceRotation::East,
            PieceRotation::East => PieceRotation::South,
            PieceRotation::South => PieceRotation::West,
            PieceRotation::West => PieceRotation::North,
        };
    }

    /// Moves the falling piece one column to the left, whether or not it then
    /// still lies inside the field.
    pub fn move_left(&mut self)
        requires
            old(self).current.x > 0,
        ensures
            *final(self) == old(self).after_move_left(),
    {
        self.current.x -= 1;
    }

    /// Moves the falling piece one column to the right, whether or not it then
    /// still lies inside the field.
    pub fn move_right(&mut self)
        requires
            old(self).current.x < usize::MAX,
        ensures
            *final(self) == old(self).after_move_right(),
    {
        self.current.x += 1;
    }

    /// Drops the falling piece by one row, whether or not it then still lies
    /// inside the field. The piece does not settle.
    pub fn drop(&mut self)
        requires
            old(self).current.y < usize::MAX,
        ensures
            *final(self) == old(self).after_drop(),
    {
        self.current.y += 1;
    }

    /// The field as the player sees it: a copy of the settled field with the
    /// falling piece stamped onto it. The settled field itself stays as it
    /// is.
    pub fn get_field(&self) -> (field: Playfield)
        requires
            self.current.piece.box_fits(),
            self.current.in_bounds(),
        ensures
            field@ == self.field.overlaid(self.current),
    {
        let mut field = self.field;
        field.draw(&self.current);
        return field;
    }

    /// The composed view where it can be taken: `MalformedCatalogEntry` for a
    /// piece whose declared box is larger than its mask, `OutOfBounds` for
    /// one whose box does not lie inside the playfield, else what `get_field`
    /// gives.
    pub fn try_get_field(&self) -> (outcome: Result<Playfield, TetrisError>)
        ensures
            match outcome {
                Ok(field) => {
                    &&& self.current.piece.box_fits()
                    &&& self.current.in_bounds()
                    &&& field@ == self.field.overlaid(self.current)
                },
                Err(error) => error == (if !self.current.piece.box_fits() {
                    TetrisError::MalformedCatalogEntry
                } else {
                    TetrisError::OutOfBounds
                }) && !(self.current.piece.box_fits() && self.current.in_bounds()),
            },
    {
        if self.current.piece.width > PIECE_SIDE || self.current.piece.height > PIECE_SIDE {
            return Err(TetrisError::MalformedCatalogEntry);
        }
        if !self.current.fits() {
            return Err(TetrisError::OutOfBounds);
        }
        Ok(self.get_field())
    }

    /// The level the game was started at.
    pub fn get_level(&self) -> (level: u8)
        ensures
            level == self.level,
    {
        return self.level;
    }
}

/// An index below `n` from `rand::Rng::gen_range` on the thread's random
/// generator, asked for the range `0..n`. The range must not be empty, or
/// the call panics; the index lies in the range, and nothing more is claimed
/// of it.
#[verifier::external_body]
fn random_index(n: usize) -> (index: usize)
    requires
        n > 0,
    ensures
        index < n,
{
    rand::Rng::gen_range(&mut rand::thread_rng(), 0..n)
}

/// Starts a game at `level` whose first piece is the catalog entry at
/// `index`.
pub fn create_tetris_game_with(level: u8, index: usize) -> (game: TetrisState)
    requires
        index < NUM_TETRISPIECES,
    ensures
        game.is_new_game(level, catalog()[index as int]),
        game.current.piece.wf(),
        game.current.in_bounds(),
{
    let pieces = definitions();
    proof {
        lemma_catalog_wf();
    }

    TetrisState {
        level: level,
        field: empty_field(),
        current: CurrentPiece {
            piece: pieces[index],
            x: SPAWN_X,
            y: SPAWN_Y,
            rotation: PieceRotation::North,
        },
    }
}

/// Starts a game at `level` with a first piece drawn from the catalog by an
/// index that the random generator picks among the seven. Whichever index
/// comes, the piece is that entry, faces North and stands at the spawn
/// position over an empty field.
pub fn create_tetris_game(level: u8) -> (game: TetrisState)
    ensures
        exists|i: int| 0 <= i < NUM_TETRISPIECES && game.is_new_game(level, #[trigger] catalog()[i]),
        game.current.piece.wf(),
        game.current.in_bounds(),
{
    let index: usize = random_index(NUM_TETRISPIECES);
    let game = create_tetris_game_with(level, index);
    assert(game.is_new_game(level, catalog()[index as int]));
    game
}

} // verus!
