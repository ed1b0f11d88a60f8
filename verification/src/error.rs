//! The error type shared by every module of the library.
use vstd::prelude::*;

verus! {

/// What went wrong, with the text shown to the user.
#[derive(Debug)]
pub enum CoreError {
    Crypto(String),
    InvalidState(String),
    NotFound(String),
    Io(String),
    Storage(String),
}

/// The mathematical view of a [`CoreError`]: its kind and its text.
pub enum ErrorView {
    Crypto(Seq<char>),
    InvalidState(Seq<char>),
    NotFound(Seq<char>),
    Io(Seq<char>),
    Storage(Seq<char>),
}

impl ErrorView {
    /// The text that the error carries.
    pub open spec fn text(self) -> Seq<char> {
        match self {
            ErrorView::Crypto(t) => t,
            ErrorView::InvalidState(t) => t,
            ErrorView::NotFound(t) => t,
            ErrorView::Io(t) => t,
            ErrorView::Storage(t) => t,
        }
    }
}

impl View for CoreError {
    type V = ErrorView;

    open spec fn view(&self) -> ErrorView {
        match *self {
            CoreError::Crypto(s) => ErrorView::Crypto(s@),
            CoreError::InvalidState(s) => ErrorView::InvalidState(s@),
            CoreError::NotFound(s) => ErrorView::NotFound(s@),
            CoreError::Io(s) => ErrorView::Io(s@),
            CoreError::Storage(s) => ErrorView::Storage(s@),
        }
    }
}

impl CoreError {
    pub fn crypto(text: &str) -> (e: CoreError)
        ensures
            e@ == ErrorView::Crypto(text@),
    {
        CoreError::Crypto(text.to_string())
    }

    pub fn invalid_state(text: &str) -> (e: CoreError)
        ensures
            e@ == ErrorView::InvalidState(text@),
    {
        CoreError::InvalidState(text.to_string())
    }

    /// The text of the error, as handed to the user interface.
    pub fn into_text(self) -> (s: String)
        ensures
            s@ == self@.text(),
    {
        match self {
            CoreError::Crypto(s) => s,
            CoreError::InvalidState(s) => s,
            CoreError::NotFound(s) => s,
            CoreError::Io(s) => s,
            CoreError::Storage(s) => s,
        }
    }
}

/// The result type used throughout the library.
pub type Result<T> = std::result::Result<T, CoreError>;

} // verus!
