//! A two-player game of tic-tac-toe on a three-by-three board: the board, the
//! cursor that picks the next cell, whose turn it is, and when the game is won
//! or drawn.
pub mod app;
pub mod game;
pub mod grid;
