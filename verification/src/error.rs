//! The failures that the library reports.

use vstd::prelude::*;

verus! {

/// Why an operation did not succeed. Every variant but `InvalidRole` carries
/// the text to show the operator.
#[derive(Debug, PartialEq, Eq)]
pub enum Error {
    /// The home or key directory, or the named key, is absent.
    NotFound(String),
    /// A name that must be a plain file name is not one.
    InvalidName(String),
    /// A file operation, the key generator or the elevated batch failed.
    IoFailure(String),
    /// The certificate authority answered outside the 2xx class.
    RemoteRejected(String),
    /// The certificate authority could not be reached.
    Transport(String),
    /// The role of a trust installation is neither `user` nor `host`.
    InvalidRole,
    /// The private half of a pair was renamed and the public half was not.
    PartialRename(String),
}

/// An [`Error`] with its text as a sequence of characters.
pub ghost enum ErrorView {
    NotFound(Seq<char>),
    InvalidName(Seq<char>),
    IoFailure(Seq<char>),
    RemoteRejected(Seq<char>),
    Transport(Seq<char>),
    InvalidRole,
    PartialRename(Seq<char>),
}

impl View for Error {
    type V = ErrorView;

    open spec fn view(&self) -> ErrorView {
        match self {
            Error::NotFound(m) => ErrorView::NotFound(m@),
            Error::InvalidName(m) => ErrorView::InvalidName(m@),
            Error::IoFailure(m) => ErrorView::IoFailure(m@),
            Error::RemoteRejected(m) => ErrorView::RemoteRejected(m@),
            Error::Transport(m) => ErrorView::Transport(m@),
            Error::InvalidRole => ErrorView::InvalidRole,
            Error::PartialRename(m) => ErrorView::PartialRename(m@),
        }
    }
}

impl ErrorView {
    /// The text shown for this failure.
    pub open spec fn message(self) -> Seq<char> {
        match self {
            ErrorView::NotFound(m) => m,
            ErrorView::InvalidName(m) => m,
            ErrorView::IoFailure(m) => m,
            ErrorView::RemoteRejected(m) => m,
            ErrorView::Transport(m) => m,
            ErrorView::InvalidRole => "Invalid role. Use 'user' or 'host'."@,
            ErrorView::PartialRename(m) => m,
        }
    }
}

impl Error {
    /// The text shown for this failure.
    pub fn message(&self) -> (r: String)
        ensures
            r@ == self@.message(),
    {
        match self {
            Error::NotFound(m) => m.clone(),
            Error::InvalidName(m) => m.clone(),
            Error::IoFailure(m) => m.clone(),
            Error::RemoteRejected(m) => m.clone(),
            Error::Transport(m) => m.clone(),
            Error::InvalidRole => String::from_str("Invalid role. Use 'user' or 'host'."),
            Error::PartialRename(m) => m.clone(),
        }
    }
}

} // verus!
