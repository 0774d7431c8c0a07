//! A verified tic-tac-toe core: a 3x3 board on which two players alternately
//! claim cells, with move validation and win/draw detection.
//!
//! The executable state machine lives in [`game`]; its behaviour is specified
//! against the mathematical model in [`model`], and the general laws of the
//! game (turn alternation, cells never changing owner, win precedence) are
//! proved in [`laws`].

pub mod game;
pub mod laws;
pub mod model;
