//! The failures of parsing and unwrapping.

use vstd::prelude::*;
use vstd::string::*;

verus! {

/// Everything that can go wrong while a container is read or unwrapped.
#[derive(Debug, Clone, Copy, PartialEq, Eq)]
pub enum ParseError {
    /// The input ended before the header, a segment's length, a segment's
    /// data or the reserved bytes were complete.
    EndOfFile,
    /// The first eight bytes are not the container's magic.
    InvalidHeader,
    /// The key of the audio cipher could not be unwrapped.
    DecryptRC4KeyFailed,
    /// The metadata could not be unwrapped.
    DecryptMetadataFailed,
    /// The metadata document is no JSON, or a field of it is missing or of
    /// the wrong shape. The text says which.
    ParseMetadataFailed(&'static str),
}

/// The sentence that describes a failure.
pub open spec fn message_of(error: ParseError) -> Seq<char> {
    match error {
        ParseError::EndOfFile => "The ncm file ends unexpectedly."@,
        ParseError::InvalidHeader => "The ncm file header does not match \"CTENFDAM\"."@,
        ParseError::DecryptRC4KeyFailed => "Failed to decrypt ncm RC4 key."@,
        ParseError::DecryptMetadataFailed => "Failed to decrypt ncm metadata."@,
        ParseError::ParseMetadataFailed(detail) => "Failed parsing ncm metadata. ["@ + detail@
            + "]"@,
    }
}

impl ParseError {
    /// The sentence that describes this failure.
    pub fn message(&self) -> (r: String)
        ensures
            r@ == message_of(*self),
    {
        match self {
            ParseError::EndOfFile => "The ncm file ends unexpectedly.".to_owned(),
            ParseError::InvalidHeader => "The ncm file header does not match \"CTENFDAM\".".to_owned(),
            ParseError::DecryptRC4KeyFailed => "Failed to decrypt ncm RC4 key.".to_owned(),
            ParseError::DecryptMetadataFailed => "Failed to decrypt ncm metadata.".to_owned(),
            ParseError::ParseMetadataFailed(detail) => {
                let mut r = "Failed parsing ncm metadata. [".to_owned();
                r.append(detail);
                r.append("]");
                r
            },
        }
    }
}

} // verus!
