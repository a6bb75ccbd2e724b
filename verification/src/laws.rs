//! What holds of the turns and moves taken together.

use vstd::prelude::*;
use crate::catalog::{catalog, lemma_catalog_distinct, lemma_catalog_wf, NUM_TETRISPIECES};
use crate::color::BlockColor;
use crate::game::{TetrisState, SPAWN_X, SPAWN_Y};
use crate::piece::{lemma_grid_equal, PieceRotation, TetrisPieceData, PIECE_SIDE};
use crate::playfield::{Playfield, FIELD_HEIGHT, FIELD_WIDTH};

verus! {

/// Turning a shape to `first` and turning the result to `then` gives the
/// shape turned once, to the orientation that the two turns add up to.
pub proof fn lemma_rotations_compose(
    piece: TetrisPieceData,
    first: PieceRotation,
    then: PieceRotation,
)
    requires
        piece.box_fits(),
    ensures
        piece.rotated(first).rotated(then) == piece.rotated(first.compose(then)),
{
    let once = piece.rotated(first);
    let twice = once.rotated(then);
    let direct = piece.rotated(first.compose(then));
    piece.lemma_rotated_data_cells(first);
    once.lemma_rotated_data_cells(then);
    piece.lemma_rotated_data_cells(first.compose(then));
    assert forall|x: int, y: int|
        0 <= x < PIECE_SIDE && 0 <= y < PIECE_SIDE implies #[trigger] twice.data[y][x]
        == direct.data[y][x] by {
        assert(twice.data[y][x] == once.rotated_cell(then, x, y));
        assert(direct.data[y][x] == piece.rotated_cell(first.compose(then), x, y));
    }
    lemma_grid_equal(twice.data, direct.data);
}

/// Turning a well-formed shape to North leaves it as it is.
pub proof fn lemma_north_is_identity(piece: TetrisPieceData)
    requires
        piece.wf(),
    ensures
        piece.rotated(PieceRotation::North) == piece,
{
    let turned = piece.rotated(PieceRotation::North);
    piece.lemma_rotated_data_cells(PieceRotation::North);
    assert forall|x: int, y: int|
        0 <= x < PIECE_SIDE && 0 <= y < PIECE_SIDE implies #[trigger] turned.data[y][x]
        == piece.data[y][x] by {
        assert(turned.data[y][x] == piece.rotated_cell(PieceRotation::North, x, y));
        if !(x < piece.width && y < piece.height) {
            assert(!piece.occupied(x, y));
            assert(piece.data[y][x] <= 1);
        }
    }
    lemma_grid_equal(turned.data, piece.data);
}

/// The rotation cycle closes: a well-formed shape turned four times by the
/// same step, whichever of the four orientations the step is, is the shape
/// itself again.
pub proof fn lemma_four_turns_restore(piece: TetrisPieceData, step: PieceRotation)
    requires
        piece.wf(),
    ensures
        piece.rotated(step).rotated(step).rotated(step).rotated(step) == piece,
{
    lemma_rotations_compose(piece, step, step);
    lemma_rotations_compose(piece, step.compose(step), step);
    lemma_rotations_compose(piece, step.compose(step).compose(step), step);
    assert(step.compose(step).compose(step).compose(step) == PieceRotation::North);
    lemma_north_is_identity(piece);
}

/// The sixteen cells of a mask, added up.
spec fn total(cells: spec_fn(int, int) -> int) -> int {
    cells(0, 0) + cells(1, 0) + cells(2, 0) + cells(3, 0)
    + cells(0, 1) + cells(1, 1) + cells(2, 1) + cells(3, 1)
    + cells(0, 2) + cells(1, 2) + cells(2, 2) + cells(3, 2)
    + cells(0, 3) + cells(1, 3) + cells(2, 3) + cells(3, 3)
}

/// The number of occupied cells, written out cell by cell.
proof fn lemma_count_is_total(piece: TetrisPieceData)
    ensures
        piece.occupied_count() == total(|x: int, y: int| piece.filled(x, y)),
{
    reveal_with_fuel(TetrisPieceData::row_count, 5);
    reveal_with_fuel(TetrisPieceData::rows_count, 5);
}

/// Adding up the cells of a box after a turn gives what adding them up
/// before the turn gives: `after` holds, inside the turned box, the cells of
/// `before` as the turn carries them, and both are 0 outside their boxes.
proof fn lemma_turned_total(
    before: spec_fn(int, int) -> int,
    after: spec_fn(int, int) -> int,
    w: int,
    h: int,
    rotation: PieceRotation,
)
    requires
        0 <= w <= 4,
        0 <= h <= 4,
        forall|x: int, y: int|
            0 <= x < 4 && 0 <= y < 4 && !(x < w && y < h) ==> #[trigger] before(x, y) == 0,
        forall|x: int, y: int|
            0 <= x < 4 && 0 <= y < 4 ==> #[trigger] after(x, y) == (match rotation {
                PieceRotation::North => if x < w && y < h {
                    before(x, y)
                } else {
                    0
                },
                PieceRotation::East => if x < h && y < w {
                    before(y, h - 1 - x)
                } else {
                    0
                },
                PieceRotation::South => if x < w && y < h {
                    before(w - 1 - x, h - 1 - y)
                } else {
                    0
                },
                PieceRotation::West => if x < h && y < w {
                    before(w - 1 - y, x)
                } else {
                    0
                },
            }),
    ensures
        total(after) == total(before),
{
}

/// A turn keeps the number of occupied cells of a shape whose box covers its
/// mask.
pub proof fn lemma_rotation_keeps_count(piece: TetrisPieceData, rotation: PieceRotation)
    requires
        piece.box_fits(),
        piece.box_covers_mask(),
    ensures
        piece.rotated(rotation).occupied_count() == piece.occupied_count(),
{
    let turned = piece.rotated(rotation);
    let before = |x: int, y: int| piece.filled(x, y);
    let after = |x: int, y: int| turned.filled(x, y);
    piece.lemma_rotated_data_cells(rotation);
    assert forall|x: int, y: int|
        0 <= x < 4 && 0 <= y < 4 && !(x < piece.width && y < piece.height) implies #[trigger] before(
        x,
        y,
    ) == 0 by {
        assert(!piece.occupied(x, y));
    }
    assert forall|x: int, y: int| 0 <= x < 4 && 0 <= y < 4 implies #[trigger] after(x, y) == (
    if x < turned.width && y < turned.height {
        before(piece.source_x(rotation, x, y), piece.source_y(rotation, x, y))
    } else {
        0
    }) by {
        assert(turned.data[y][x] == piece.rotated_cell(rotation, x, y));
    }
    lemma_turned_total(before, after, piece.width as int, piece.height as int, rotation);
    lemma_count_is_total(piece);
    lemma_count_is_total(turned);
}

/// Whether the cells `filled` touch all four sides of the box of `w` columns
/// and `h` rows at the top-left corner of the mask.
spec fn touches_sides(filled: spec_fn(int, int) -> bool, w: int, h: int) -> bool {
    &&& filled(0, 0) || filled(1, 0) || filled(2, 0) || filled(3, 0)
    &&& filled(0, 0) || filled(0, 1) || filled(0, 2) || filled(0, 3)
    &&& filled(0, h - 1) || filled(1, h - 1) || filled(2, h - 1) || filled(3, h - 1)
    &&& filled(w - 1, 0) || filled(w - 1, 1) || filled(w - 1, 2) || filled(w - 1, 3)
}

/// Cells that touch all four sides of their box still do after a turn:
/// `after` holds, inside the turned box, the cells of `before` as the turn
/// carries them, and both are empty outside their boxes.
proof fn lemma_turned_touches_sides(
    before: spec_fn(int, int) -> bool,
    after: spec_fn(int, int) -> bool,
    w: int,
    h: int,
    rotation: PieceRotation,
)
    requires
        1 <= w <= 4,
        1 <= h <= 4,
        forall|x: int, y: int| !(0 <= x < w && 0 <= y < h) ==> !#[trigger] before(x, y),
        forall|x: int, y: int|
            #[trigger] after(x, y) == (match rotation {
                PieceRotation::North => 0 <= x < w && 0 <= y < h && before(x, y),
                PieceRotation::East => 0 <= x < h && 0 <= y < w && before(y, h - 1 - x),
                PieceRotation::South => 0 <= x < w && 0 <= y < h && before(w - 1 - x, h - 1 - y),
                PieceRotation::West => 0 <= x < h && 0 <= y < w && before(w - 1 - y, x),
            }),
        touches_sides(before, w, h),
    ensures
        match rotation {
            PieceRotation::North | PieceRotation::South => touches_sides(after, w, h),
            PieceRotation::East | PieceRotation::West => touches_sides(after, h, w),
        },
{
}

/// A turn keeps the shape in touch with all four sides of its box.
pub proof fn lemma_rotation_keeps_box_tight(piece: TetrisPieceData, rotation: PieceRotation)
    requires
        piece.box_fits(),
        piece.box_covers_mask(),
        piece.box_is_tight(),
    ensures
        piece.rotated(rotation).box_is_tight(),
{
    let turned = piece.rotated(rotation);
    let before = |x: int, y: int| piece.occupied(x, y);
    let after = |x: int, y: int| turned.occupied(x, y);
    piece.lemma_rotated_data_cells(rotation);
    assert forall|x: int, y: int| #[trigger] after(x, y) == (0 <= x < turned.width && 0 <= y
        < turned.height && before(
        piece.source_x(rotation, x, y),
        piece.source_y(rotation, x, y),
    )) by {
        if 0 <= x < PIECE_SIDE && 0 <= y < PIECE_SIDE {
            assert(turned.data[y][x] == piece.rotated_cell(rotation, x, y));
        }
    }
    assert(touches_sides(before, piece.width as int, piece.height as int));
    lemma_turned_touches_sides(before, after, piece.width as int, piece.height as int, rotation);
    assert(touches_sides(after, turned.width as int, turned.height as int));
}

/// A well-formed shape stays well formed under every turn: in particular it
/// keeps its four cells.
pub proof fn lemma_rotation_keeps_wf(piece: TetrisPieceData, rotation: PieceRotation)
    requires
        piece.wf(),
    ensures
        piece.rotated(rotation).wf(),
        piece.rotated(rotation).occupied_count() == 4,
{
    let turned = piece.rotated(rotation);
    piece.lemma_rotated_data_cells(rotation);
    lemma_rotation_keeps_count(piece, rotation);
    lemma_rotation_keeps_box_tight(piece, rotation);
    assert forall|x: int, y: int|
        0 <= x < PIECE_SIDE && 0 <= y < PIECE_SIDE implies #[trigger] turned.data[y][x] <= 1 by {
        assert(turned.data[y][x] == piece.rotated_cell(rotation, x, y));
    }
    assert forall|x: int, y: int| #[trigger] turned.occupied(x, y) implies x < turned.width && y
        < turned.height by {
        assert(turned.data[y][x] == piece.rotated_cell(rotation, x, y));
    }
}

/// Four clockwise quarter turns bring the falling piece back to the
/// orientation it had, and so to the box it had; four counter-clockwise ones
/// do the same.
pub proof fn lemma_four_quarter_turns(state: TetrisState)
    ensures
        state.after_rotate_cw().after_rotate_cw().after_rotate_cw().after_rotate_cw() == state,
        state.after_rotate_ccw().after_rotate_ccw().after_rotate_ccw().after_rotate_ccw() == state,
        ({
            let turned =
                state.after_rotate_cw().after_rotate_cw().after_rotate_cw().after_rotate_cw();
            &&& turned.current.rotation == state.current.rotation
            &&& turned.current.rotated_width() == state.current.rotated_width()
            &&& turned.current.rotated_height() == state.current.rotated_height()
        }),
{
}

/// A clockwise quarter turn and a counter-clockwise one undo each other.
pub proof fn lemma_quarter_turns_cancel(state: TetrisState)
    ensures
        state.after_rotate_cw().after_rotate_ccw() == state,
        state.after_rotate_ccw().after_rotate_cw() == state,
{
}

/// A step to the left followed by a step to the right brings the falling
/// piece back to the column it started from, and changes nothing else.
pub proof fn lemma_left_then_right(state: TetrisState)
    requires
        state.current.x > 0,
    ensures
        state.after_move_left().after_move_right() == state,
{
}

/// The composed view is a function of the state: two fields that both show
/// the state's falling piece over its settled field are the same field.
pub proof fn lemma_view_is_determined(state: TetrisState, first: Playfield, second: Playfield)
    requires
        first@ == state.field.overlaid(state.current),
        second@ == state.field.overlaid(state.current),
    ensures
        first == second,
{
    first.lemma_view_injective(second);
}

/// The composed view differs from the settled field only where the falling
/// piece is: every cell that the piece does not cover shows what is settled
/// there, and every covered cell shows the piece's colour.
pub proof fn lemma_view_keeps_settled_cells(state: TetrisState, x: int, y: int)
    requires
        0 <= x < FIELD_WIDTH,
        0 <= y < FIELD_HEIGHT,
    ensures
        state.field.overlaid(state.current)[y][x] == (if state.current.covers(x, y) {
            state.current.piece.color
        } else {
            state.field.at(x, y)
        }),
{
}

/// A new game shows its first piece and nothing else: the composed view
/// holds the piece's colour at the four cells of its mask, set off by the
/// spawn position, and the empty colour everywhere else.
pub proof fn lemma_new_game_shows_the_piece(game: TetrisState, level: u8, index: int)
    requires
        0 <= index < NUM_TETRISPIECES,
        game.is_new_game(level, catalog()[index]),
    ensures
        game.current.in_bounds(),
        game.current.piece.occupied_count() == 4,
        game.current.piece.color != BlockColor::Black,
        forall|x: int, y: int|
            0 <= x < FIELD_WIDTH && 0 <= y < FIELD_HEIGHT ==> #[trigger] game.field.overlaid(
                game.current,
            )[y][x] == (if game.current.piece.occupied(x - SPAWN_X, y - SPAWN_Y) {
                game.current.piece.color
            } else {
                BlockColor::Black
            }),
{
    lemma_catalog_wf();
    lemma_catalog_distinct();
    lemma_north_is_identity(game.current.piece);
    assert forall|x: int, y: int|
        0 <= x < FIELD_WIDTH && 0 <= y < FIELD_HEIGHT implies #[trigger] game.field.overlaid(
        game.current,
    )[y][x] == (if game.current.piece.occupied(x - SPAWN_X, y - SPAWN_Y) {
        game.current.piece.color
    } else {
        BlockColor::Black
    }) by {
        assert(game.field.at(x, y) == BlockColor::Black);
    }
}

/// No move touches the settled field, the level or the shape of the falling
/// piece.
pub proof fn lemma_moves_keep_settled_field(state: TetrisState)
    ensures
        ({
            let next = state.after_rotate_cw();
            next.field == state.field && next.level == state.level && next.current.piece
                == state.current.piece
        }),
        ({
            let next = state.after_rotate_ccw();
            next.field == state.field && next.level == state.level && next.current.piece
                == state.current.piece
        }),
        ({
            let next = state.after_move_left();
            next.field == state.field && next.level == state.level && next.current.piece
                == state.current.piece
        }),
        ({
            let next = state.after_move_right();
            next.field == state.field && next.level == state.level && next.current.piece
                == state.current.piece
        }),
        ({
            let next = state.after_drop();
            next.field == state.field && next.level == state.level && next.current.piece
                == state.current.piece
        }),
{
}

} // verus!
