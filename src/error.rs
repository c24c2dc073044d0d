use vstd::prelude::*;

verus! {

/// What went wrong, by cause.
#[derive(Clone, Copy, Debug, PartialEq, Eq, Structural)]
pub enum ErrorKind {
    /// The fetch failed.
    Network,
    /// The text is not an RSS document.
    RssParse,
    /// The text is not an Atom document.
    AtomParse,
    /// A URL could not be parsed or joined.
    UrlParse,
    /// No parser accepted the text of a source of unknown kind.
    NoFeed,
    /// The source kind cannot be fetched as a feed.
    SourceNotSupported,
}

#[derive(Clone, Debug)]
pub struct Error {
    pub kind: ErrorKind,
    pub message: String,
}

impl Error {
    pub fn new(kind: ErrorKind, message: String) -> (r: Error)
        ensures
            r.kind == kind,
            r.message == message,
    {
        Error { kind, message }
    }

    /// The error for a failed fetch.
    pub fn network(message: String) -> (r: Error)
        ensures
            r.kind == ErrorKind::Network,
            r.message == message,
    {
        Error { kind: ErrorKind::Network, message }
    }

    /// The human-readable text of the error.
    pub fn to_string(&self) -> (r: String)
        ensures
            r == self.message,
    {
        self.message.clone()
    }
}

pub type Result<T> = core::result::Result<T, Error>;

} // verus!
