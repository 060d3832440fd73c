//! Errors of the image builder.
use vstd::prelude::*;

verus! {

/// Why an operation of the image builder failed.
#[derive(Debug, PartialEq, Eq)]
pub enum BuildError {
    /// A string names no conversion type.
    InvalidConversionType,
    /// A blob has no chunk index left.
    TooManyChunks,
    /// There is no blob index left.
    TooManyBlobs,
    /// The prefetch size of a blob does not fit the blob table.
    PrefetchSizeOutOfRange,
    /// A seek leads to a negative or overflowing position.
    InvalidSeek,
    /// A name cannot be stored in a tar header, for the given reason.
    InvalidTarName(String),
}

impl BuildError {
    /// The text that `message` returns.
    pub open spec fn spec_message(self) -> Seq<char> {
        match self {
            BuildError::InvalidConversionType => "invalid conversion type"@,
            BuildError::TooManyChunks => "the number of chunks in blob exceeds the u32 limit"@,
            BuildError::TooManyBlobs => "too many blobs"@,
            BuildError::PrefetchSizeOutOfRange => "out of range integral type conversion attempted"@,
            BuildError::InvalidSeek => "invalid seek to a negative or overflowing position"@,
            BuildError::InvalidTarName(reason) => reason@,
        }
    }

    /// A description of the error.
    pub fn message(&self) -> (text: &str)
        ensures
            text@ == self.spec_message(),
    {
        match self {
            BuildError::InvalidConversionType => "invalid conversion type",
            BuildError::TooManyChunks => "the number of chunks in blob exceeds the u32 limit",
            BuildError::TooManyBlobs => "too many blobs",
            BuildError::PrefetchSizeOutOfRange => "out of range integral type conversion attempted",
            BuildError::InvalidSeek => "invalid seek to a negative or overflowing position",
            BuildError::InvalidTarName(reason) => reason.as_str(),
        }
    }
}

} // verus!
