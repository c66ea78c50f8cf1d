//! Why reading a tag can fail.

use vstd::prelude::*;

verus! {

/// `std::io::Error`, the error of a failed operation on a stream. The library
/// hands such a value on and never looks inside it.
#[verifier::external_type_specification]
#[verifier::external_body]
pub struct ExIoError(std::io::Error);

/// Tells a stream that could not be read from a stream that carries no tag.
#[derive(Debug)]
pub enum ReadError {
    /// An operation on the stream failed.
    IO(std::io::Error),
    /// The stream holds fewer bytes than a tag has, so it carries none.
    TooShort,
    /// The bytes where a tag would be are not a tag.
    ID3,
}

impl From<std::io::Error> for ReadError {
    fn from(err: std::io::Error) -> (result: ReadError) {
        ReadError::IO(err)
    }
}

impl vstd::std_specs::convert::FromSpecImpl<std::io::Error> for ReadError {
    open spec fn obeys_from_spec() -> bool {
        true
    }

    open spec fn from_spec(err: std::io::Error) -> ReadError {
        ReadError::IO(err)
    }
}

} // verus!
