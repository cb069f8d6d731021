//! The terminal application's state: screens, menus, the card browser, the
//! reading in progress and the journal view, and how keys and ticks move it.
//! Drawing and the event loop are the application's part.

pub mod app;
pub mod laws;
pub mod view;
