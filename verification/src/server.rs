//! What the JSON-RPC server answers to a request to validate a file.

pub mod request;
pub mod response;

use vstd::prelude::*;
use vstd::string::StringExecFns;
use crate::naga_support::{
    first_span, location_is_safe, span_bounds, span_location, validation_error_debug,
    validation_error_text,
};
use crate::wgsl_error::WgslError;

verus! {

/// The answer to `validate_file`.
pub enum ValidateFileResponse {
    /// The shader is valid (sent as `Ok`).
    Valid(bool),
    /// The shader was refused at a 1-based line and column.
    ParserErr { error: String, scopes: Vec<String>, line: usize, pos: usize },
    /// The shader was refused by validation, at no known place.
    ValidationErr { message: String, debug: String },
    /// The file could not be checked.
    UnknownError(String),
}

/// The text of a validation failure: the error's message, a full stop, a
/// blank line and its debug rendering.
pub open spec fn failure_message(text: Seq<char>, debug: Seq<char>) -> Seq<char> {
    text + ".\n\n"@ + debug
}

/// The pretty `Debug` rendering (`format!("{:#?}", value)`) of a value, whose
/// form std leaves open (and whose text for an I/O error comes from the
/// operating system); not stated here.
#[verifier::external_body]
pub(crate) fn debug_text<D: std::fmt::Debug>(value: &D) -> (text: String) {
    format!("{:#?}", value)
}

/// What `validate_file` answers for the outcome of checking a file (see
/// `ValidateFileResponse::from_outcome`).
pub open spec fn answers(outcome: Result<(), WgslError>, r: ValidateFileResponse) -> bool {
    match outcome {
        Ok(()) => r == ValidateFileResponse::Valid(true),
        Err(WgslError::ParserErr { error, line, pos }) => r.is_located(error@, line, pos),
        Err(WgslError::ValidationErr { src, error }) => {
            let message = failure_message(
                crate::naga_support::validation_error_message(error),
                crate::naga_support::validation_error_debug_text(error),
            );
            let spans = crate::naga_support::validation_spans(error);
            if spans.len() > 0 && crate::naga_support::location_safe(spans[0], src@) {
                let (line, column) = crate::naga_support::offset_location(src@, spans[0].0 as int);
                r.is_located(message, line as usize, column as usize)
                    && 1 <= line <= crate::naga_support::newline_count(src@) + 1
                    && 1 <= column <= crate::naga_support::byte_len(src@) + 1
            } else {
                r matches ValidateFileResponse::ValidationErr { message: m, debug }
                    && m@ == message && debug@
                    == crate::naga_support::validation_error_debug_text(error)
            }
        },
        Err(WgslError::IoErr(_)) => r is UnknownError,
    }
}

/// Every validation error whose first span naga can locate is answered at
/// that span's 1-based line and column, whatever its offset: the span is not
/// reversed, begins at a character boundary at or before the end of the
/// source and begins before `u32::MAX`. Only errors without a span, or whose
/// first span naga's `Span::location` would panic on, are answered without a
/// place. A valid shader is answered `Ok(true)`, a parser error is passed on
/// with its line and column, an I/O error is an unknown error.
pub proof fn lemma_validation_error_answered_at_its_span(
    outcome: Result<(), WgslError>,
    r: ValidateFileResponse,
)
    requires
        answers(outcome, r),
    ensures
        match outcome {
            Ok(()) => r == ValidateFileResponse::Valid(true),
            Err(WgslError::ParserErr { error, line, pos }) => r matches ValidateFileResponse::ParserErr {
                error: e,
                line: l,
                pos: p,
                ..
            } && e@ == error@ && l == line && p == pos,
            Err(WgslError::ValidationErr { src, error }) => {
                let spans = crate::naga_support::validation_spans(error);
                let message = crate::naga_support::validation_error_message(error) + ".\n\n"@
                    + crate::naga_support::validation_error_debug_text(error);
                if spans.len() > 0 && spans[0].0 <= spans[0].1 && spans[0].0 < 0xffff_ffffu32
                    && spans[0].0 <= vstd::utf8::encode_utf8(src@).len()
                    && vstd::utf8::is_char_boundary(vstd::utf8::encode_utf8(src@), spans[0].0 as int) {
                    r matches ValidateFileResponse::ParserErr { error: e, scopes, line, pos } && e@
                        == message && scopes@.len() == 0 && line >= 1 && pos >= 1 && line as int
                        == crate::naga_support::offset_location(src@, spans[0].0 as int).0
                        && pos as int == crate::naga_support::offset_location(src@, spans[0].0 as int).1
                } else {
                    r matches ValidateFileResponse::ValidationErr { message: m, .. } && m@ == message
                }
            },
            Err(WgslError::IoErr(_)) => r is UnknownError,
        },
{
    if let Err(WgslError::ValidationErr { src, error }) = outcome {
        let spans = crate::naga_support::validation_spans(error);
        if spans.len() > 0 {
            crate::naga_support::lemma_location_safe_is_nagas_condition(spans[0], src@);
            if crate::naga_support::location_safe(spans[0], src@) {
                crate::naga_support::lemma_location_bounds(src@, spans[0].0 as int);
            }
        }
    }
}

impl ValidateFileResponse {
    /// Whether this is the `ParserErr` with the given error, line and column
    /// and no scopes.
    pub open spec fn is_located(self, error: Seq<char>, line: usize, pos: usize) -> bool {
        self matches ValidateFileResponse::ParserErr { error: e, scopes, line: l, pos: p }
            && e@ == error && scopes@.len() == 0 && l == line && p == pos
    }

    /// The answer for a validation failure with the given message text, debug
    /// text and the location of its first span, if it has one: located at
    /// that span, or a bare validation error.
    pub fn validation_failure(text: String, debug: String, location: Option<(u32, u32)>) -> (r: Self)
        ensures
            match location {
                Some((line, column)) => r.is_located(
                    failure_message(text@, debug@),
                    line as usize,
                    column as usize,
                ),
                None => r matches ValidateFileResponse::ValidationErr { message, debug: d }
                    && message@ == failure_message(text@, debug@) && d@ == debug@,
            },
    {
        let message = text.concat(".\n\n").concat(debug.as_str());
        match location {
            Some((line, column)) => ValidateFileResponse::ParserErr {
                error: message,
                scopes: Vec::new(),
                line: line as usize,
                pos: column as usize,
            },
            None => ValidateFileResponse::ValidationErr { message, debug },
        }
    }

    /// The answer to `validate_file` for the outcome of checking the file:
    /// `Ok(true)` for a valid shader; a parser error passed on as it is, with
    /// no scopes; a validation error with its message, a blank line and its
    /// debug rendering, located at its first span where it has one (a 1-based
    /// line of the source and a 1-based column within its bytes); an I/O
    /// error as an unknown error with its debug rendering. Naga's
    /// `Span::location` panics where the first span is reversed, begins
    /// outside the source or inside a character, or begins at `u32::MAX`;
    /// such an error is answered as one without a place.
    pub fn from_outcome(outcome: Result<(), WgslError>) -> (r: Self)
        ensures
            answers(outcome, r),
    {
        match outcome {
            Ok(()) => ValidateFileResponse::Valid(true),
            Err(err) => match err {
                WgslError::ParserErr { error, line, pos } => ValidateFileResponse::ParserErr {
                    error,
                    scopes: Vec::new(),
                    line,
                    pos,
                },
                WgslError::ValidationErr { src, error } => {
                    let location = match first_span(&error) {
                        Some(span) => {
                            let range = span_bounds(span);
                            if location_is_safe(range, src.as_str()) {
                                proof {
                                    crate::naga_support::lemma_location_bounds(src@, range.0 as int);
                                }
                                Some(span_location(span, src.as_str()))
                            } else {
                                None
                            }
                        },
                        None => None,
                    };
                    let text = validation_error_text(&error);
                    let debug = validation_error_debug(&error);
                    Self::validation_failure(text, debug, location)
                },
                err => ValidateFileResponse::UnknownError(debug_text(&err)),
            },
        }
    }
}

} // verus!
