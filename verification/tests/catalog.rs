use rustris::catalog::{definitions, NUM_TETRISPIECES};
use rustris::color::BlockColor;
use rustris::error::TetrisError;
use rustris::piece::{PieceGrid, PieceKind, PieceRotation, TetrisPieceData, PIECE_SIDE};

const ROTATIONS: [PieceRotation; 4] =
    [PieceRotation::North, PieceRotation::East, PieceRotation::South, PieceRotation::West];

fn count_cells(data: &PieceGrid) -> usize {
    let mut n = 0;
    for row in data.iter() {
        for cell in row.iter() {
            if *cell == 1 {
                n += 1;
            }
        }
    }
    n
}

fn l_piece() -> TetrisPieceData {
    definitions()[1]
}

#[test]
fn catalog_has_seven_entries_in_fixed_order() {
    let pieces = definitions();
    assert_eq!(pieces.len(), 7);
    assert_eq!(NUM_TETRISPIECES, 7);
    let kinds: Vec<PieceKind> = pieces.iter().map(|p| p.kind).collect();
    assert_eq!(
        kinds,
        vec![
            PieceKind::I,
            PieceKind::L,
            PieceKind::J,
            PieceKind::O,
            PieceKind::S,
            PieceKind::Z,
            PieceKind::T
        ]
    );
    let colors: Vec<BlockColor> = pieces.iter().map(|p| p.color).collect();
    assert_eq!(
        colors,
        vec![
            BlockColor::Red,
            BlockColor::Yellow,
            BlockColor::Orange,
            BlockColor::Cyan,
            BlockColor::Green,
            BlockColor::Magenta,
            BlockColor::Blue
        ]
    );
    let boxes: Vec<(usize, usize)> = pieces.iter().map(|p| (p.width, p.height)).collect();
    assert_eq!(boxes, vec![(4, 1), (3, 2), (3, 2), (2, 2), (3, 2), (3, 2), (3, 2)]);
}

#[test]
fn catalog_masks_are_the_standard_shapes() {
    let pieces = definitions();
    assert_eq!(pieces[0].data, [[1, 1, 1, 1], [0, 0, 0, 0], [0, 0, 0, 0], [0, 0, 0, 0]]);
    assert_eq!(pieces[1].data, [[0, 0, 1, 0], [1, 1, 1, 0], [0, 0, 0, 0], [0, 0, 0, 0]]);
    assert_eq!(pieces[2].data, [[1, 0, 0, 0], [1, 1, 1, 0], [0, 0, 0, 0], [0, 0, 0, 0]]);
    assert_eq!(pieces[3].data, [[1, 1, 0, 0], [1, 1, 0, 0], [0, 0, 0, 0], [0, 0, 0, 0]]);
    assert_eq!(pieces[4].data, [[0, 1, 1, 0], [1, 1, 0, 0], [0, 0, 0, 0], [0, 0, 0, 0]]);
    assert_eq!(pieces[5].data, [[1, 1, 0, 0], [0, 1, 1, 0], [0, 0, 0, 0], [0, 0, 0, 0]]);
    assert_eq!(pieces[6].data, [[0, 1, 0, 0], [1, 1, 1, 0], [0, 0, 0, 0], [0, 0, 0, 0]]);
}

#[test]
fn every_entry_has_four_cells_in_every_rotation() {
    for piece in definitions().iter() {
        assert_eq!(count_cells(&piece.data), 4);
        for rotation in ROTATIONS.iter() {
            let turned = piece.get_data(rotation);
            assert_eq!(count_cells(&turned.data), 4, "{:?} {:?}", piece.kind, rotation);
        }
    }
}

#[test]
fn every_entry_and_every_rotation_of_it_is_well_formed() {
    for piece in definitions().iter() {
        assert_eq!(piece.validate(), Ok(()));
        for rotation in ROTATIONS.iter() {
            assert_eq!(piece.get_data(rotation).validate(), Ok(()));
        }
    }
}

#[test]
fn north_is_the_identity() {
    for piece in definitions().iter() {
        assert_eq!(piece.get_data(&PieceRotation::North), *piece);
    }
}

#[test]
fn east_turns_the_l_clockwise() {
    let turned = l_piece().get_data(&PieceRotation::East);
    assert_eq!(turned.data, [[1, 0, 0, 0], [1, 0, 0, 0], [1, 1, 0, 0], [0, 0, 0, 0]]);
    assert_eq!((turned.width, turned.height), (2, 3));
    assert_eq!(turned.color, BlockColor::Yellow);
    assert_eq!(turned.kind, PieceKind::L);
}

#[test]
fn west_turns_the_l_counterclockwise() {
    let turned = l_piece().get_data(&PieceRotation::West);
    assert_eq!(turned.data, [[1, 1, 0, 0], [0, 1, 0, 0], [0, 1, 0, 0], [0, 0, 0, 0]]);
    assert_eq!((turned.width, turned.height), (2, 3));
}

#[test]
fn south_turns_the_l_upside_down() {
    let turned = l_piece().get_data(&PieceRotation::South);
    assert_eq!(turned.data, [[1, 1, 1, 0], [1, 0, 0, 0], [0, 0, 0, 0], [0, 0, 0, 0]]);
    assert_eq!((turned.width, turned.height), (3, 2));
}

#[test]
fn the_bar_stands_up_in_the_first_column() {
    let bar = definitions()[0];
    let upright = [[1, 0, 0, 0], [1, 0, 0, 0], [1, 0, 0, 0], [1, 0, 0, 0]];
    let east = bar.get_data(&PieceRotation::East);
    assert_eq!(east.data, upright);
    assert_eq!((east.width, east.height), (1, 4));
    let west = bar.get_data(&PieceRotation::West);
    assert_eq!(west.data, upright);
    assert_eq!((west.width, west.height), (1, 4));
    let south = bar.get_data(&PieceRotation::South);
    assert_eq!(south.data, bar.data);
    assert_eq!((south.width, south.height), (4, 1));
}

#[test]
fn every_entry_touches_all_four_sides_of_its_box() {
    for piece in definitions().iter() {
        for rotation in ROTATIONS.iter() {
            let turned = piece.get_data(rotation);
            let (w, h) = (turned.width, turned.height);
            assert!((0..4).any(|x| turned.data[0][x] == 1));
            assert!((0..4).any(|y| turned.data[y][0] == 1));
            assert!((0..4).any(|x| turned.data[h - 1][x] == 1));
            assert!((0..4).any(|y| turned.data[y][w - 1] == 1));
            for y in 0..4 {
                for x in 0..4 {
                    if turned.data[y][x] == 1 {
                        assert!(x < w && y < h);
                    }
                }
            }
        }
    }
}

#[test]
fn the_square_looks_the_same_in_every_rotation() {
    let square = definitions()[3];
    for rotation in ROTATIONS.iter() {
        assert_eq!(square.get_data(rotation), square);
    }
}

#[test]
fn each_cell_lands_where_the_turn_carries_it() {
    for piece in definitions().iter() {
        let (w, h) = (piece.width, piece.height);
        let east = piece.get_data(&PieceRotation::East);
        let south = piece.get_data(&PieceRotation::South);
        let west = piece.get_data(&PieceRotation::West);
        for y in 0..h {
            for x in 0..w {
                let cell = piece.data[y][x];
                assert_eq!(east.data[x][h - 1 - y], cell);
                assert_eq!(south.data[h - 1 - y][w - 1 - x], cell);
                assert_eq!(west.data[w - 1 - x][y], cell);
            }
        }
    }
}

#[test]
fn four_turns_by_the_same_step_restore_the_mask() {
    for piece in definitions().iter() {
        for step in ROTATIONS.iter() {
            let back = piece.get_data(step).get_data(step).get_data(step).get_data(step);
            assert_eq!(back, *piece, "{:?} {:?}", piece.kind, step);
        }
    }
}

#[test]
fn two_turns_equal_the_one_they_add_up_to() {
    for piece in definitions().iter() {
        for first in ROTATIONS.iter() {
            let mut sum = *first;
            for then in ROTATIONS.iter() {
                // `then` walks North, East, South, West: `sum` follows it.
                let direct = piece.get_data(&sum);
                let in_two = piece.get_data(first).get_data(then);
                assert_eq!(in_two, direct, "{:?} {:?} {:?}", piece.kind, first, then);
                sum = sum.clockwise();
            }
        }
    }
}

#[test]
fn clockwise_walks_north_east_south_west() {
    assert_eq!(PieceRotation::North.clockwise(), PieceRotation::East);
    assert_eq!(PieceRotation::East.clockwise(), PieceRotation::South);
    assert_eq!(PieceRotation::South.clockwise(), PieceRotation::West);
    assert_eq!(PieceRotation::West.clockwise(), PieceRotation::North);
}

#[test]
fn counterclockwise_is_the_inverse_of_clockwise() {
    assert_eq!(PieceRotation::North.counterclockwise(), PieceRotation::West);
    assert_eq!(PieceRotation::West.counterclockwise(), PieceRotation::South);
    assert_eq!(PieceRotation::South.counterclockwise(), PieceRotation::East);
    assert_eq!(PieceRotation::East.counterclockwise(), PieceRotation::North);
    for rotation in ROTATIONS.iter() {
        assert_eq!(rotation.clockwise().counterclockwise(), *rotation);
        assert_eq!(rotation.counterclockwise().clockwise(), *rotation);
    }
}

#[test]
fn a_box_that_misses_an_occupied_cell_is_malformed() {
    let mut piece = l_piece();
    piece.width = 2;
    assert_eq!(piece.validate(), Err(TetrisError::MalformedCatalogEntry));
    let mut piece = l_piece();
    piece.height = 1;
    assert_eq!(piece.validate(), Err(TetrisError::MalformedCatalogEntry));
}

#[test]
fn a_box_larger_than_the_mask_is_malformed() {
    let mut piece = l_piece();
    piece.width = PIECE_SIDE + 1;
    assert_eq!(piece.validate(), Err(TetrisError::MalformedCatalogEntry));
    let mut piece = l_piece();
    piece.height = 5;
    assert_eq!(piece.validate(), Err(TetrisError::MalformedCatalogEntry));
}

#[test]
fn a_box_with_room_to_spare_is_malformed() {
    let mut piece = l_piece();
    piece.width = 4;
    assert_eq!(piece.validate(), Err(TetrisError::MalformedCatalogEntry));
    let mut piece = l_piece();
    piece.height = 3;
    assert_eq!(piece.validate(), Err(TetrisError::MalformedCatalogEntry));
    let mut piece = l_piece();
    piece.width = 4;
    piece.height = 4;
    assert_eq!(piece.validate(), Err(TetrisError::MalformedCatalogEntry));
}

#[test]
fn a_shape_off_the_top_left_corner_is_malformed() {
    // The bar in the second row of a box of three rows.
    let mut bar = definitions()[0];
    bar.data = [[0, 0, 0, 0], [1, 1, 1, 1], [0, 0, 0, 0], [0, 0, 0, 0]];
    bar.height = 3;
    assert_eq!(bar.validate(), Err(TetrisError::MalformedCatalogEntry));
    bar.height = 2;
    assert_eq!(bar.validate(), Err(TetrisError::MalformedCatalogEntry));
    // The square one column to the right.
    let mut square = definitions()[3];
    square.data = [[0, 1, 1, 0], [0, 1, 1, 0], [0, 0, 0, 0], [0, 0, 0, 0]];
    square.width = 3;
    assert_eq!(square.validate(), Err(TetrisError::MalformedCatalogEntry));
}

#[test]
fn a_box_without_a_side_is_malformed() {
    let mut piece = l_piece();
    piece.width = 0;
    assert_eq!(piece.validate(), Err(TetrisError::MalformedCatalogEntry));
    let mut piece = l_piece();
    piece.height = 0;
    assert_eq!(piece.validate(), Err(TetrisError::MalformedCatalogEntry));
}

#[test]
fn a_cell_that_is_neither_0_nor_1_is_malformed() {
    let mut piece = l_piece();
    piece.data[0][0] = 2;
    assert_eq!(piece.validate(), Err(TetrisError::MalformedCatalogEntry));
}

#[test]
fn a_shape_without_four_cells_is_malformed() {
    let mut five = l_piece();
    five.data[0][0] = 1;
    assert_eq!(five.validate(), Err(TetrisError::MalformedCatalogEntry));
    let mut three = l_piece();
    three.data[0][2] = 0;
    assert_eq!(three.validate(), Err(TetrisError::MalformedCatalogEntry));
    let mut none = l_piece();
    none.data = [[0; 4]; 4];
    assert_eq!(none.validate(), Err(TetrisError::MalformedCatalogEntry));
}

#[test]
fn a_turn_drops_what_lies_outside_the_box() {
    let mut piece = l_piece();
    piece.data[3][3] = 1;
    let turned = piece.get_data(&PieceRotation::North);
    assert_eq!(turned.data, l_piece().data);
    let turned = piece.get_data(&PieceRotation::South);
    assert_eq!(turned.data, [[1, 1, 1, 0], [1, 0, 0, 0], [0, 0, 0, 0], [0, 0, 0, 0]]);
}
