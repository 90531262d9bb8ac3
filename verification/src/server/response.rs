//! Responses that the server sends back.

use vstd::prelude::*;

verus! {

/// A response of the server.
pub struct Response {
    pub event: ResponseEvent,
}

/// What a response reports.
pub enum ResponseEvent {
    /// The shader is valid (sent as `Ok`).
    Valid,
    /// The shader was refused at a line and column.
    ParserErr { error: String, scopes: Vec<String>, line: usize, pos: usize },
    /// Something else went wrong.
    UnknownError(String),
}

} // verus!
