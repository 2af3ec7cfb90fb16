//! What the daemon's editor plugin shows to the user.
use vstd::prelude::*;
use vstd::string::*;
use crate::text::join2;

verus! {

/// How grave a notification is.
#[derive(Debug, Clone, Copy, PartialEq, Eq, Structural)]
pub enum Level {
    Trace,
    Debug,
    Info,
    Warn,
    Error,
}

impl Level {
    /// The number the editor knows the level by.
    pub open spec fn number(self) -> usize {
        match self {
            Level::Trace => 0,
            Level::Debug => 1,
            Level::Info => 2,
            Level::Warn => 3,
            Level::Error => 4,
        }
    }

    /// The number the editor knows the level by.
    pub fn to_number(&self) -> (n: usize)
        ensures
            n == self.number(),
    {
        match self {
            Level::Trace => 0,
            Level::Debug => 1,
            Level::Info => 2,
            Level::Warn => 3,
            Level::Error => 4,
        }
    }
}

/// The text of a notification with the message `msg`.
pub open spec fn notification_text(msg: Seq<char>) -> Seq<char> {
    "⋇ XBase: "@ + msg
}

/// The text of a notification with the message `msg`.
pub fn notification(msg: &str) -> (s: String)
    ensures
        s@ == notification_text(msg@),
{
    join2("⋇ XBase: ", msg)
}

} // verus!
