//! What can go wrong, as values.

use vstd::prelude::*;

verus! {

/// Why a line of the event channel, or a reply of the command channel, could
/// not be decoded.
#[derive(Clone, Debug, PartialEq, Eq)]
pub enum DecodeError {
    /// An event line without `>>` between its tag and its fields.
    InvalidFormat,
    /// An event tag that is not known.
    UnknownTag,
    /// A field that should be a number and is not, or does not fit.
    InvalidInteger,
    /// A field that should be `true` or `false` and is neither.
    InvalidBoolean,
    /// A record with fewer fields than its tag asks for.
    UnexpectedEof,
    /// A reply that is not JSON, with what the JSON parser said of it.
    InvalidJson(String),
    /// A JSON record without one of its fields.
    MissingField,
    /// A JSON value of another type than its place asks for.
    InvalidType,
}

/// Why a call or a stream failed.
#[derive(Clone, Debug, PartialEq, Eq)]
pub enum Error {
    /// The environment does not name the compositor's instance.
    Configuration,
    /// The socket could not be opened, with the system's reason.
    Connection(String),
    /// Reading or writing failed, with the system's reason.
    Io(String),
    /// What was read could not be decoded.
    Decode(DecodeError),
}

/// A reason why decoding failed, as a value of mathematics: what the JSON
/// parser said is a sequence of characters.
pub enum DecodeErrorView {
    InvalidFormat,
    UnknownTag,
    InvalidInteger,
    InvalidBoolean,
    UnexpectedEof,
    InvalidJson(Seq<char>),
    MissingField,
    InvalidType,
}

impl View for DecodeError {
    type V = DecodeErrorView;

    open spec fn view(&self) -> DecodeErrorView {
        match self {
            DecodeError::InvalidFormat => DecodeErrorView::InvalidFormat,
            DecodeError::UnknownTag => DecodeErrorView::UnknownTag,
            DecodeError::InvalidInteger => DecodeErrorView::InvalidInteger,
            DecodeError::InvalidBoolean => DecodeErrorView::InvalidBoolean,
            DecodeError::UnexpectedEof => DecodeErrorView::UnexpectedEof,
            DecodeError::InvalidJson(message) => DecodeErrorView::InvalidJson(message@),
            DecodeError::MissingField => DecodeErrorView::MissingField,
            DecodeError::InvalidType => DecodeErrorView::InvalidType,
        }
    }
}

/// An error as a value of mathematics: its reasons are sequences of
/// characters.
pub enum ErrorView {
    Configuration,
    Connection(Seq<char>),
    Io(Seq<char>),
    Decode(DecodeErrorView),
}

impl View for Error {
    type V = ErrorView;

    open spec fn view(&self) -> ErrorView {
        match self {
            Error::Configuration => ErrorView::Configuration,
            Error::Connection(reason) => ErrorView::Connection(reason@),
            Error::Io(reason) => ErrorView::Io(reason@),
            Error::Decode(error) => ErrorView::Decode(error@),
        }
    }
}

} // verus!
