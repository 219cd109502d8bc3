//! Error taxonomy: native runtime failures, wrapper-level contract
//! violations, failures with no description, and OS-level failures.

use vstd::prelude::*;

verus! {

/// A failure surfaced by this layer.
///
/// `NNError` carries the runtime's own description of a failing status
/// code; `WrapperError` is a binding-level contract violation (unexpected
/// null, invalid text encoding, out-of-range index, malformed parameter);
/// `Null` is a native failure for which no description was available;
/// `IoError` carries the raw OS error code observed when the platform
/// reported an allocation failure.
#[derive(Debug, Clone)]
pub enum Error {
    NNError(String),
    WrapperError(String),
    Null(),
    IoError(i32),
}

/// The error that a failing native status code maps to: the runtime's own
/// description when one was available, otherwise the message-less `Null`.
pub open spec fn native_error(description: Option<String>) -> Error {
    match description {
        Some(d) => Error::NNError(d),
        None => Error::Null(),
    }
}

impl Error {
    /// Maps a native status code's description into the taxonomy: the
    /// runtime's describing function either produced text for the code or
    /// returned null (or text in an invalid encoding), in which case no
    /// message is available.
    pub fn from_native(description: Option<String>) -> (r: Error)
        ensures
            r == native_error(description),
    {
        match description {
            Some(d) => Error::NNError(d),
            None => Error::Null(),
        }
    }

    /// A renderable description of the error.
    pub fn message(&self) -> (m: &str)
        ensures
            m@ == self.message_spec(),
    {
        match self {
            Error::NNError(d) => d.as_str(),
            Error::WrapperError(d) => d.as_str(),
            Error::Null() => "null/unknown error message unavailable",
            Error::IoError(_) => "underlying system error",
        }
    }

    /// What `message` returns for each variant.
    pub open spec fn message_spec(&self) -> Seq<char> {
        match self {
            Error::NNError(d) => d@,
            Error::WrapperError(d) => d@,
            Error::Null() => "null/unknown error message unavailable"@,
            Error::IoError(_) => "underlying system error"@,
        }
    }

    /// Whether this error is a binding-level contract violation.
    pub fn is_wrapper_error(&self) -> (r: bool)
        ensures
            r == (self is WrapperError),
    {
        match self {
            Error::WrapperError(_) => true,
            _ => false,
        }
    }
}

} // verus!
