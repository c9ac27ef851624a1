//! Error types used within the crate.

use vstd::prelude::*;

verus! {

/// An error surfaced to the caller of window creation.
pub enum Error {
    /// A native call failed; the payload carries the platform's account of it.
    Internal(InternalError),
}

/// A structured account of a failed native call: the platform status code,
/// the call site, and the human-readable message the platform supplied.
pub struct InternalError {
    pub code: u32,
    pub context: String,
    pub message: String,
}

impl InternalError {
    /// Bundles a platform status code with its context and message. The
    /// message text itself comes from the platform's message facility,
    /// which stays outside this crate.
    pub fn new(context: &str, code: u32, message: String) -> (r: Self)
        ensures
            r.code == code,
            r.context@ == context@,
            r.message@ == message@,
    {
        Self { code, context: context.to_owned(), message }
    }
}

impl Error {
    /// Wraps a platform error for the public surface.
    pub fn from_internal(err: InternalError) -> (r: Error)
        ensures
            r == Error::Internal(err),
    {
        Error::Internal(err)
    }
}

} // verus!
