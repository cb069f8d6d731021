//! Arcana: a tarot library — the 78-card deck, spreads, readings, the
//! journal's text formats and the terminal application's state machine.

pub mod cards;
pub mod cli;
pub mod deck;
pub mod error;
pub mod journal;
pub mod lines;
pub mod spreads;
pub mod text;
pub mod timestamp;
pub mod tui;
pub mod ui;
