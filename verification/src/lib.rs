//! Rules engine for a game of checkers on an 8×8 board.
//!
//! [`board`] holds the value types: coordinates with their diagonal
//! neighbours, pieces and moves. [`state`] is the mathematical model of a
//! game, with the rules stated over it. [`game`] holds the engine, which
//! lists the legal moves of the side to move, checks a proposed move and
//! plays it. [`laws`] proves what holds of the rules.

pub mod board;
pub mod game;
pub mod laws;
pub mod state;
