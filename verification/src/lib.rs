//! Tic-tac-toe as a verified state machine: the players and their marks,
//! the board with its eight winning lines, and the session that moves
//! between waiting, playing and finished.

pub mod board;
pub mod game;
pub mod player;
