use vstd::prelude::*;

verus! {

/// Why the data under a record could not be read.
#[derive(Debug, PartialEq, Eq)]
pub enum IoFailure {
    /// The bytes are not what the format asks for: a string that is not
    /// UTF-8, or a token name index past the end of the string table.
    InvalidData,
    /// The source itself could not be read; the text says why.
    Unreadable(String),
}

/// Failures while loading a record from its bytes.
#[derive(Debug, PartialEq, Eq)]
pub enum ReadingError {
    /// The source is too short to hold a header.
    InvalidFileFormat,
    /// The header carries a version other than 0.
    UnsupportedVersion(u32),
    /// The declared total size (first) exceeds the length of the source (second).
    ContentTooSmall(u32, u64),
    /// The declared total size (first) differs from the size the counts add up to (second).
    ContentWrongSize(u32, u64),
    /// The sections after the header could not be read.
    IoError(IoFailure),
}

} // verus!
