//! The core of a chess board program: the history of a game with its side
//! lines, the opening book, the line to the engine, and the session that
//! holds them together.
//!
//! The rules of chess are those of `shakmaty`. A position is held as its
//! portable notation and a move as plain squares and roles; the functions
//! that ask the rules engine are trusted, and everything else is proved
//! against what they promise.

pub mod board;
pub mod chess;
pub mod config;
pub mod game;
pub mod gesture;
pub mod move_index;
pub mod oddity;
pub mod openings;
pub mod proxy;
pub mod text;
pub mod variation;
