//! Requests that a client of the server sends.

use vstd::prelude::*;

verus! {

#[verifier::external_type_specification]
#[verifier::external_body]
pub struct ExPathBuf(std::path::PathBuf);

/// A request to the server.
pub struct Request {
    pub event: RequestEvent,
}

/// What a request asks for.
pub enum RequestEvent {
    /// The request could not be read.
    Error,
    /// Validate the shader at a path.
    ValidatePath(std::path::PathBuf),
}

} // verus!
