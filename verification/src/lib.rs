//! A verified game-state engine for two-player tic-tac-toe on a fixed
//! 3x3 board: board representation, win/draw detection, turn-taking,
//! pointer-driven move resolution, and the restart lifecycle.
//!
//! Rendering, input collection and frame scheduling are left to an
//! unverified shell; the engine itself performs no I/O and is fully
//! testable headlessly.

pub mod board;
pub mod engine;
pub mod resolver;
pub mod turn;
pub mod win;
