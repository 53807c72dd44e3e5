use vstd::prelude::*;

verus! {

/// Everything that can stop a watcher or the start of the process.
///
/// Each variant carries the message of its cause. A failed request also
/// records whether it timed out or could not connect, which is what makes
/// it worth another attempt.
#[derive(Debug, PartialEq, Eq)]
pub enum Error {
    /// The feed document could not be parsed.
    FeedRs(String),
    /// The configuration is contradictory.
    Config(String),
    /// A watcher task could not be joined.
    Task(String),
    /// Reading a file or running a process failed.
    Io(String),
    /// An HTTP request failed.
    Request { message: String, timeout: bool, connect: bool },
    /// The configuration file is not valid TOML.
    Toml(String),
    /// The bot API refused a call.
    Serenity(String),
    /// A feed item cannot be turned into an entry.
    Entry(EntryError),
}

/// Why a feed item was not turned into an entry.
#[derive(Clone, Copy, Debug, PartialEq, Eq, Structural)]
pub enum EntryError {
    /// The HTML body of the item could not be rendered as text.
    Html,
    /// The publish timestamp lies outside the calendar.
    Timestamp,
}

impl Error {
    /// Whether the failure is a transient network condition.
    pub open spec fn spec_is_transient(&self) -> bool {
        match self {
            Error::Request { timeout, connect, .. } => *timeout || *connect,
            _ => false,
        }
    }
}

} // verus!
