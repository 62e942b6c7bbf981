//! Rules for two peers that play a turn-based game over a byte channel.
//!
//! Each peer runs the same logic on its own copy of the game; the copies stay
//! consistent through the messages alone. This crate holds the rules: the grid
//! and its win detection, the sealed choice of rock-paper-scissors, and the
//! per-game sessions that say, for every event, what the peer sends, expects
//! and shows next. Moving the bytes and drawing the screen is left to the
//! caller.

pub mod cipher;
pub mod error;
pub mod rock_paper_scissor;
pub mod session;
pub mod tic_tac_toe;
pub mod util;
