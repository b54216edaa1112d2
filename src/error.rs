//! Errors of the library.

use vstd::prelude::*;

verus! {

/// What went wrong while assembling a stream or preparing a request.
#[derive(Debug, Clone, PartialEq, Eq)]
pub enum KodeError {
    /// A payload that had to be JSON was not.
    MalformedPayload { message: String },
    /// The provider reported an error.
    ApiError { provider: String, message: String },
    /// The stream ended without something the message needs.
    IncompleteStream { message: String },
    /// No adapter exists for this provider.
    UnsupportedProvider { provider: String },
    /// The adapter exists but cannot serve requests.
    NotImplemented { message: String },
}

} // verus!
