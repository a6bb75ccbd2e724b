//! A falling-block puzzle engine: the seven tetrominoes with their quarter
//! turns, a bounded playfield, and the moves a player makes on the falling
//! piece. Drawing and key handling on a terminal are left to the front end,
//! which feeds keys in and reads the composed field back.

pub mod color;
pub mod error;
pub mod piece;
pub mod catalog;
pub mod playfield;
pub mod game;
pub mod control;
pub mod laws;
