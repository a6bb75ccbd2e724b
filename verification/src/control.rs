//! What a key press does: which screen comes next, and which move the
//! falling piece makes. The front end reads the keys and draws the screens.

use vstd::prelude::*;
use crate::game::TetrisState;

verus! {

/// A key press, as far as the game tells keys apart.
#[derive(Clone, Copy, Debug, PartialEq, Eq, Structural)]
pub enum Key {
    Char(char),
    Esc,
    Up,
    Down,
    Left,
    Right,
    Other,
}

/// The screen that the front end shows.
#[derive(Clone, Copy, Debug, PartialEq, Eq, Structural)]
pub enum GameState {
    /// The title screen, waiting for a start.
    Intro,
    /// The game itself.
    Game,
    /// The session is over; the front end leaves its loop.
    End,
}

/// The screen that follows the title screen on `key`: space starts the game,
/// `q` ends the session, any other key changes nothing.
pub open spec fn intro_next(key: Key) -> GameState {
    match key {
        Key::Char(c) => if c == ' ' {
            GameState::Game
        } else if c == 'q' {
            GameState::End
        } else {
            GameState::Intro
        },
        _ => GameState::Intro,
    }
}

/// The game after `key` was pressed on the game screen: up turns the
/// falling piece clockwise, down counter-clockwise, left and right move it by
/// a column, space drops it by a row, each as the move of that name does; any
/// other key leaves the game as it is.
pub open spec fn game_after_key(key: Key, game: TetrisState) -> TetrisState {
    match key {
        Key::Up => game.after_rotate_cw(),
        Key::Down => game.after_rotate_ccw(),
        Key::Left => game.after_move_left(),
        Key::Right => game.after_move_right(),
        Key::Char(c) => if c == ' ' {
            game.after_drop()
        } else {
            game
        },
        _ => game,
    }
}

/// Whether the move that `key` asks for stays within the range of the
/// piece's coordinates: a step to the left wants a column above zero, a step
/// to the right or down a coordinate below the largest.
pub open spec fn key_in_reach(key: Key, game: TetrisState) -> bool {
    match key {
        Key::Left => game.current.x > 0,
        Key::Right => game.current.x < usize::MAX,
        Key::Char(c) => c == ' ' ==> game.current.y < usize::MAX,
        _ => true,
    }
}

/// The screen that follows the game screen on `key`: escape goes back to the
/// title screen, any other key stays in the game.
pub open spec fn game_next(key: Key) -> GameState {
    if key == Key::Esc {
        GameState::Intro
    } else {
        GameState::Game
    }
}

/// Handles a key on the title screen.
pub fn intro_state_control(key: Key) -> (next: GameState)
    ensures
        next == intro_next(key),
{
    return match key {
        Key::Char(' ') => GameState::Game,
        Key::Char('q') => GameState::End,
        _ => GameState::Intro,
    };
}

/// Tests whether the move that `key` asks for stays within the range of the
/// piece's coordinates.
pub fn can_handle_key(key: Key, tetris_state: &TetrisState) -> (in_reach: bool)
    ensures
        in_reach == key_in_reach(key, *tetris_state),
{
    match key {
        Key::Left => tetris_state.current.x > 0,
        Key::Right => tetris_state.current.x < usize::MAX,
        Key::Char(' ') => tetris_state.current.y < usize::MAX,
        _ => true,
    }
}

/// Handles a key on the game screen: escape goes back to the title screen,
/// a move key makes the move of its name.
pub fn game_state_control(key: Key, tetris_state: &mut TetrisState) -> (next: GameState)
    requires
        key_in_reach(key, *old(tetris_state)),
    ensures
        next == game_next(key),
        *final(tetris_state) == game_after_key(key, *old(tetris_state)),
{
    if key == Key::Esc {
        return GameState::Intro;
    }
    match key {
        Key::Up => {
            tetris_state.rotate_cw();
        },
        Key::Down => {
            tetris_state.rotate_ccw();
        },
        Key::Left => {
            tetris_state.move_left();
        },
        Key::Right => {
            tetris_state.move_right();
        },
        Key::Char(' ') => {
            tetris_state.drop();
        },
        _ => {},
    }

    GameState::Game
}

/// The screen after `key` was pressed on screen `state`.
pub open spec fn screen_after_key(state: GameState, key: Key) -> GameState {
    match state {
        GameState::Intro => intro_next(key),
        GameState::Game => game_next(key),
        GameState::End => GameState::End,
    }
}

/// One step of the session: hands `key` to the screen that is showing and
/// gives the screen to show next. Only the game screen touches the game.
pub fn handle_key(state: GameState, key: Key, tetris_state: &mut TetrisState) -> (next: GameState)
    requires
        state == GameState::Game ==> key_in_reach(key, *old(tetris_state)),
    ensures
        next == screen_after_key(state, key),
        *final(tetris_state) == (if state == GameState::Game {
            game_after_key(key, *old(tetris_state))
        } else {
            *old(tetris_state)
        }),
{
    match state {
        GameState::Intro => intro_state_control(key),
        GameState::Game => game_state_control(key, tetris_state),
        GameState::End => state,
    }
}

} // verus!
