//! The ways in which parsing a command line fails.

use vstd::prelude::*;
use crate::options::{OptionItem, OptionToken};

verus! {

/// Why a command line was refused.
#[derive(Debug)]
pub enum EntranceError {
    /// Fewer positional arguments were given than the command requires.
    InvalidNumberOfArguments,
    /// An option was given that the command does not know; carries the option.
    InvalidOption(OptionItem),
    /// An argument could not be converted to the type of its field; carries
    /// the message of the conversion's own error.
    ParseError(String),
}

/// The mathematical value of an [`EntranceError`].
pub enum ErrorView {
    InvalidNumberOfArguments,
    InvalidOption(OptionToken),
    ParseError(Seq<char>),
}

impl View for EntranceError {
    type V = ErrorView;

    open spec fn view(&self) -> ErrorView {
        match self {
            EntranceError::InvalidNumberOfArguments => ErrorView::InvalidNumberOfArguments,
            EntranceError::InvalidOption(item) => ErrorView::InvalidOption(item@),
            EntranceError::ParseError(message) => ErrorView::ParseError(message@),
        }
    }
}

/// The result of an operation that may refuse a command line.
pub type Result<T> = std::result::Result<T, EntranceError>;

/// An [`EntranceError`] without what it carries.
#[derive(Debug, Clone, Copy, PartialEq, Eq, Structural)]
pub enum ErrorKind {
    InvalidNumberOfArguments,
    InvalidOption,
    ParseError,
}

/// The kind of an error value.
pub open spec fn kind_of(error: ErrorView) -> ErrorKind {
    match error {
        ErrorView::InvalidNumberOfArguments => ErrorKind::InvalidNumberOfArguments,
        ErrorView::InvalidOption(_) => ErrorKind::InvalidOption,
        ErrorView::ParseError(_) => ErrorKind::ParseError,
    }
}

/// The text that describes an error of the given kind.
pub open spec fn kind_text(kind: ErrorKind) -> Seq<char> {
    match kind {
        ErrorKind::InvalidNumberOfArguments => "Invalid number of arguments"@,
        ErrorKind::InvalidOption => "Invalid option"@,
        ErrorKind::ParseError => "Failed to parse"@,
    }
}

impl EntranceError {
    /// Which of the three failures this is.
    pub fn kind(&self) -> (kind: ErrorKind)
        ensures
            kind == kind_of(self@),
    {
        match self {
            EntranceError::InvalidNumberOfArguments => ErrorKind::InvalidNumberOfArguments,
            EntranceError::InvalidOption(_) => ErrorKind::InvalidOption,
            EntranceError::ParseError(_) => ErrorKind::ParseError,
        }
    }

    /// The text that describes the failure to a user.
    pub fn to_string(&self) -> (text: String)
        ensures
            text@ == kind_text(kind_of(self@)),
    {
        match self {
            EntranceError::InvalidNumberOfArguments => "Invalid number of arguments".to_owned(),
            EntranceError::InvalidOption(_) => "Invalid option".to_owned(),
            EntranceError::ParseError(_) => "Failed to parse".to_owned(),
        }
    }
}

} // verus!
