//! The error that aborts a conversion.

use vstd::prelude::*;
use vstd::string::*;

verus! {

/// Why a conversion was abandoned. Both kinds arise where the children of a
/// block are listed; nothing else makes a conversion fail.
#[derive(Debug, PartialEq, Eq)]
pub enum Error {
    /// The block source could not be reached or refused the request.
    Transport(String),
    /// The block source answered, but the answer could not be read as blocks.
    Parse(String),
}

/// [`Error`] as a mathematical value.
pub enum ErrorView {
    Transport(Seq<char>),
    Parse(Seq<char>),
}

impl View for Error {
    type V = ErrorView;

    open spec fn view(&self) -> ErrorView {
        match self {
            Error::Transport(m) => ErrorView::Transport(m@),
            Error::Parse(m) => ErrorView::Parse(m@),
        }
    }
}

impl Clone for Error {
    fn clone(&self) -> (r: Self)
        ensures
            r == *self,
    {
        match self {
            Error::Transport(m) => Error::Transport(m.clone()),
            Error::Parse(m) => Error::Parse(m.clone()),
        }
    }
}

impl Error {
    /// The error in words: its kind, a colon, and the text that came with it.
    pub open spec fn message_text(self) -> Seq<char> {
        match self {
            Error::Transport(detail) => "transport error: "@ + detail@,
            Error::Parse(detail) => "parse error: "@ + detail@,
        }
    }

    /// Writes the error out in words.
    pub fn message(&self) -> (r: String)
        ensures
            r@ == self.message_text(),
    {
        match self {
            Error::Transport(detail) => {
                let mut out = String::from_str("transport error: ");
                out.append(detail.as_str());
                out
            },
            Error::Parse(detail) => {
                let mut out = String::from_str("parse error: ");
                out.append(detail.as_str());
                out
            },
        }
    }
}

} // verus!
