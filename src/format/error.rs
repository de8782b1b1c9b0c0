use vstd::prelude::*;

verus! {

/// Failures while decoding values out of a loaded record.
#[derive(Debug, PartialEq, Eq)]
pub enum Error {
    /// A string table index past the end of the table.
    InvalidFormat,
    Message(String),
    NoMoreTokens,
    NoMoreArgs,
    ExpectedString,
    ExpectedUintToken,
    ExpectedSintToken,
    ExpectedEnum,
    /// A token of the requested kind with another name than the requested one.
    ExpectedTokenWithName(String),
    ExpectedBeginToken,
    ExpectedEndToken,
}

/// The mathematical value of an [`Error`], with names as character sequences.
pub enum ErrorView {
    InvalidFormat,
    Message(Seq<char>),
    NoMoreTokens,
    NoMoreArgs,
    ExpectedString,
    ExpectedUintToken,
    ExpectedSintToken,
    ExpectedEnum,
    ExpectedTokenWithName(Seq<char>),
    ExpectedBeginToken,
    ExpectedEndToken,
}

impl View for Error {
    type V = ErrorView;

    open spec fn view(&self) -> ErrorView {
        match self {
            Error::InvalidFormat => ErrorView::InvalidFormat,
            Error::Message(m) => ErrorView::Message(m@),
            Error::NoMoreTokens => ErrorView::NoMoreTokens,
            Error::NoMoreArgs => ErrorView::NoMoreArgs,
            Error::ExpectedString => ErrorView::ExpectedString,
            Error::ExpectedUintToken => ErrorView::ExpectedUintToken,
            Error::ExpectedSintToken => ErrorView::ExpectedSintToken,
            Error::ExpectedEnum => ErrorView::ExpectedEnum,
            Error::ExpectedTokenWithName(n) => ErrorView::ExpectedTokenWithName(n@),
            Error::ExpectedBeginToken => ErrorView::ExpectedBeginToken,
            Error::ExpectedEndToken => ErrorView::ExpectedEndToken,
        }
    }
}

} // verus!
