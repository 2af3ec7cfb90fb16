//! The errors that the daemon's operations report.
use vstd::prelude::*;
use vstd::string::*;
use crate::text::join2;

verus! {

/// What went wrong in an operation of the daemon.
#[derive(Debug)]
pub enum Error {
    /// A lookup found nothing: the kind of thing looked for, and the key.
    NotFound(String, String),
    /// No project definition was found at the root.
    DefinitionLocating,
    /// A build failed; the message says which.
    Build(String),
    /// A failure of the watcher, of I/O or of a text format.
    Unexpected(String),
}

/// The mathematical value of an [`Error`].
pub enum ErrorView {
    NotFound(Seq<char>, Seq<char>),
    DefinitionLocating,
    Build(Seq<char>),
    Unexpected(Seq<char>),
}

impl View for Error {
    type V = ErrorView;

    open spec fn view(&self) -> ErrorView {
        match self {
            Error::NotFound(kind, key) => ErrorView::NotFound(kind@, key@),
            Error::DefinitionLocating => ErrorView::DefinitionLocating,
            Error::Build(msg) => ErrorView::Build(msg@),
            Error::Unexpected(msg) => ErrorView::Unexpected(msg@),
        }
    }
}

/// The error of a lookup of `key` among things of the given kind.
pub open spec fn not_found(kind: Seq<char>, key: Seq<char>) -> ErrorView {
    ErrorView::NotFound(kind, key)
}

impl Error {
    /// The error of a failed lookup.
    pub fn missing(kind: &str, key: &str) -> (e: Error)
        ensures
            e@ == not_found(kind@, key@),
    {
        Error::NotFound(String::from_str(kind), String::from_str(key))
    }

    /// The text shown to a user for this error.
    pub open spec fn spec_message(self) -> Seq<char> {
        match self {
            Error::NotFound(kind, key) => kind@ + " with ("@ + key@ + ") not found"@,
            Error::DefinitionLocating => "Failed to locate project definition"@,
            Error::Build(msg) => "Build: "@ + msg@,
            Error::Unexpected(msg) => "Unexpected: "@ + msg@,
        }
    }

    /// The text shown to a user for this error.
    pub fn message(&self) -> (s: String)
        ensures
            s@ == self.spec_message(),
    {
        match self {
            Error::NotFound(kind, key) => {
                let s = String::from_str(kind.as_str()).concat(" with (").concat(key.as_str());
                s.concat(") not found")
            },
            Error::DefinitionLocating => String::from_str("Failed to locate project definition"),
            Error::Build(msg) => join2("Build: ", msg.as_str()),
            Error::Unexpected(msg) => join2("Unexpected: ", msg.as_str()),
        }
    }
}

} // verus!
