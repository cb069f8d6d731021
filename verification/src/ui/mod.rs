//! Colours and styled text for terminal output

pub mod theme;
