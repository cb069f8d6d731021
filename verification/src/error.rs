//! Error types for Arcana

use vstd::prelude::*;

verus! {

#[verifier::external_type_specification]
#[verifier::external_body]
pub struct ExIoError(std::io::Error);

/// Unified error type for the Arcana application
#[derive(Debug)]
pub enum ArcanaError {
    /// Wrapped IO error
    Io(std::io::Error),
    /// Card lookup failed
    CardNotFound(String),
    /// Spread lookup failed
    UnknownSpread(String),
    /// No active reading to save
    NoReadingToSave,
    /// TUI runtime error
    Tui(String),
}

/// std's `Display` for `io::Error` (`to_string`): the error's description.
/// The text depends on the operating system's message for the error, so
/// nothing is stated of it.
#[verifier::external_body]
fn io_error_text(e: &std::io::Error) -> String {
    e.to_string()
}

/// std's `io::Error::other`: an error of kind `Other` carrying the message.
/// The error is opaque here, so nothing is stated of it.
#[verifier::external_body]
pub(crate) fn io_error_other(message: &str) -> std::io::Error {
    std::io::Error::other(message.to_string())
}

impl ArcanaError {
    /// The message shown for this error.
    pub fn message(&self) -> (m: String)
        ensures
            match self {
                ArcanaError::Io(_) => crate::text::has_prefix(m@, "IO error: "@),
                ArcanaError::CardNotFound(name) => m@ == "Card not found: '"@ + name@ + "'"@,
                ArcanaError::UnknownSpread(name) => m@ == "Unknown spread: '"@ + name@ + "'"@,
                ArcanaError::NoReadingToSave => m@ == "No reading to save"@,
                ArcanaError::Tui(text) => m@ == "TUI error: "@ + text@,
            },
    {
        let mut m = String::new();
        match self {
            ArcanaError::Io(e) => {
                m.append("IO error: ");
                let detail = io_error_text(e);
                proof {
                    reveal_strlit("IO error: ");
                }
                let ghost start = m@;
                m.append(detail.as_str());
                assert(m@.subrange(0, "IO error: "@.len() as int) =~= start);
            },
            ArcanaError::CardNotFound(name) => {
                m.append("Card not found: '");
                m.append(name.as_str());
                m.append("'");
            },
            ArcanaError::UnknownSpread(name) => {
                m.append("Unknown spread: '");
                m.append(name.as_str());
                m.append("'");
            },
            ArcanaError::NoReadingToSave => {
                m.append("No reading to save");
            },
            ArcanaError::Tui(text) => {
                m.append("TUI error: ");
                m.append(text.as_str());
            },
        }
        assert(""@ =~= Seq::<char>::empty()) by { reveal_strlit(""); }
        m
    }
}

} // verus!
