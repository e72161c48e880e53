//! A verified rules engine for two-player Tic-Tac-Toe on a fixed 3-by-3 grid:
//! move validation, turn alternation, win and tie detection, and read-only
//! access to the board, the move history and the cached outcome.

pub mod game;
