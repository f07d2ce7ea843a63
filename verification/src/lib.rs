//! A verified 3x3 two-player board game engine with a perfect-play
//! automated opponent chosen by exhaustive minimax search.

pub mod board;
pub mod game;
pub mod engine;
pub mod laws;
