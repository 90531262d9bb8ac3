//! What the language server reports for a shader: at most one diagnostic,
//! placed where naga located a parse error.

use vstd::prelude::*;
use crate::naga::Naga;
use crate::naga_support::FullValidator;
use crate::naga_support::{parse_error_report, parse_wgsl, validate_module, validation_error_debug};

verus! {

/// How serious a diagnostic is.
#[derive(PartialEq, Eq, Structural)]
pub enum DiagnosticSeverity {
    Error,
    Warning,
    Information,
    Hint,
}

/// A 0-based line and column in a document.
#[derive(PartialEq, Eq, Structural)]
pub struct Position {
    pub line: u32,
    pub character: u32,
}

/// The part of a document between two positions.
#[derive(PartialEq, Eq, Structural)]
pub struct Range {
    pub start: Position,
    pub end: Position,
}

/// A problem in a document, as the language server publishes it.
pub struct Diagnostic {
    pub range: Range,
    pub severity: Option<DiagnosticSeverity>,
    pub source: Option<String>,
    pub message: String,
}

impl Range {
    /// The empty range at a line and column.
    pub fn at(line: u32, character: u32) -> (r: Self)
        ensures
            r.start == (Position { line, character }),
            r.end == (Position { line, character }),
    {
        Range { start: Position { line, character }, end: Position { line, character } }
    }
}

impl Diagnostic {
    /// Whether this is an error that the checker of WGSL reports.
    pub open spec fn is_wgsl_error(self) -> bool {
        &&& self.severity == Some(DiagnosticSeverity::Error)
        &&& self.source matches Some(s) && s@ == "wgsl"@
    }

    /// An error of the WGSL checker with a message, over a range.
    pub fn wgsl_error(message: String, range: Range) -> (d: Self)
        ensures
            d.is_wgsl_error(),
            d.message@ == message@,
            d.range == range,
    {
        Diagnostic {
            range,
            severity: Some(DiagnosticSeverity::Error),
            source: Some("wgsl".to_owned()),
            message,
        }
    }

    /// The diagnostic of a document that could not be read: its message, at
    /// the start of the document.
    pub fn read_failure(message: String) -> (d: Self)
        ensures
            d.is_wgsl_error(),
            d.message@ == message@,
            d.range == (Range { start: Position { line: 0, character: 0 }, end: Position { line: 0, character: 0 } }),
    {
        Self::wgsl_error(message, Range::at(0, 0))
    }

    /// The diagnostic of a parse error with naga's report, at the error's
    /// place: naga's 1-based line becomes the 0-based line of the protocol,
    /// the column is kept; where naga gives no line the start of the document
    /// is used.
    pub fn parse_failure(message: String, location: Option<(u32, u32)>) -> (d: Self)
        ensures
            d.is_wgsl_error(),
            d.message@ == message@,
            d.range.start == d.range.end,
            match location {
                Some((line, column)) if line >= 1 => d.range.start == (Position {
                    line: (line - 1) as u32,
                    character: column,
                }),
                _ => d.range.start == (Position { line: 0, character: 0 }),
            },
    {
        let range = match location {
            Some((line, column)) => {
                if line >= 1 {
                    Range::at(line - 1, column)
                } else {
                    Range::at(0, 0)
                }
            },
            None => Range::at(0, 0),
        };
        Self::wgsl_error(message, range)
    }
}

/// Where the diagnostic of a failed parse of `code` with the given labels
/// lies: at the place of the first label (see `parse_error_place`), naga's
/// 1-based line made 0-based and its column kept, or at the start of the
/// document where the error has no place.
pub open spec fn parse_failure_at(code: Seq<char>, labels: Seq<(u32, u32)>, d: Diagnostic) -> bool {
    &&& d.range.start == d.range.end
    &&& match crate::wgsl_error::parse_error_place(code, labels) {
        Some((line, column)) => d.range.start == (Position {
            line: (line - 1) as u32,
            character: column as u32,
        }),
        None => d.range.start == (Position { line: 0, character: 0 }),
    }
}

/// What checking a document's source `code` with `validator` (in the state it
/// is in before the check) ends in: nothing to report for a shader that
/// parses and that the validator accepts; for a shader that does not parse,
/// naga's report at the place of the error's first label; for one that the
/// validator refuses, the debug rendering of the error it reported, at the
/// start of the document.
pub open spec fn lsp_outcome(code: Seq<char>, validator: FullValidator, r: Result<(), Diagnostic>) -> bool {
    match crate::naga_support::wgsl_parse(code) {
        crate::naga_support::WgslParse::Failed { report, labels } => r matches Err(d)
            && d.is_wgsl_error() && d.message@ == report && parse_failure_at(code, labels, d),
        crate::naga_support::WgslParse::Parsed { validation, .. } => match validation(validator) {
            None => r is Ok,
            Some(report) => r matches Err(d) && d.is_wgsl_error() && d.range.start == d.range.end
                && d.range.start == (Position { line: 0, character: 0 }) && d.message@ == report.debug,
        },
    }
}

/// Checks the source of a document with the checker as it is (see
/// `lsp_outcome`); a diagnostic lies on a line of the document.
pub fn validate_file(naga: &mut Naga, code: &str) -> (r: Result<(), Diagnostic>)
    ensures
        lsp_outcome(code@, old(naga).checker(), r),
        r matches Err(d) ==> {
            &&& d.range.start.line <= crate::naga_support::newline_count(code@)
            &&& d.range.start.character <= crate::naga_support::byte_len(code@) + 1
        },
{
    proof {
        naga.lemma_checker_is_validator();
    }
    match parse_wgsl(code) {
        Ok(module) => match validate_module(&mut naga.validator, &module) {
            Err(error) => Err(Diagnostic::wgsl_error(validation_error_debug(&error), Range::at(0, 0))),
            Ok(()) => Ok(()),
        },
        Err(error) => {
            let location = crate::wgsl_error::parse_error_line_column(&error, code);
            proof {
                let labels = crate::naga_support::parse_error_labels(error);
                if labels.len() > 0 && crate::naga_support::location_safe(labels[0], code@) {
                    crate::naga_support::lemma_location_bounds(code@, labels[0].0 as int);
                }
            }
            let message = parse_error_report(&error, code);
            Err(Diagnostic::parse_failure(message, location))
        },
    }
}

/// Checking a document is a function of its source and of the checker's
/// state: two checks of one source by validators in one state give equal
/// outcomes (both nothing, or diagnostics with equal message, severity,
/// source and range).
pub proof fn lemma_lsp_check_is_deterministic(
    code: Seq<char>,
    validator: FullValidator,
    first: Result<(), Diagnostic>,
    second: Result<(), Diagnostic>,
)
    requires
        lsp_outcome(code, validator, first),
        lsp_outcome(code, validator, second),
    ensures
        first is Ok <==> second is Ok,
        first matches Err(d1) ==> (second matches Err(d2) && d1.message@ == d2.message@
            && d1.severity == d2.severity && d1.range == d2.range && d1.source.unwrap()@
            == d2.source.unwrap()@ && d1.source is Some && d2.source is Some),
{
}

/// Two freshly built checkers give equal outcomes for one document (both
/// nothing, or diagnostics with equal message, severity, source and range).
pub proof fn lemma_lsp_fresh_checkers_agree(
    code: Seq<char>,
    first_validator: FullValidator,
    second_validator: FullValidator,
    first: Result<(), Diagnostic>,
    second: Result<(), Diagnostic>,
)
    requires
        crate::naga_support::is_fresh(first_validator),
        crate::naga_support::is_fresh(second_validator),
        lsp_outcome(code, first_validator, first),
        lsp_outcome(code, second_validator, second),
    ensures
        first is Ok <==> second is Ok,
        first matches Err(d1) ==> (second matches Err(d2) && d1.message@ == d2.message@
            && d1.severity == d2.severity && d1.range == d2.range && d1.source.unwrap()@
            == d2.source.unwrap()@ && d1.source is Some && d2.source is Some),
{
}

/// A document yields exactly one error diagnostic unless it parses and the
/// validator (in its state before the check) accepts it: a refused module,
/// whatever spans its report carries, gives the report's debug text at the
/// start of the document; a parse error gives naga's report at naga's place,
/// its 1-based line made 0-based, where the first label is not reversed,
/// begins at a character boundary at or before the end of the source and
/// begins before `u32::MAX`, and at the start of the document otherwise.
pub proof fn lemma_refused_document_has_a_diagnostic(
    code: Seq<char>,
    validator: FullValidator,
    r: Result<(), Diagnostic>,
)
    requires
        lsp_outcome(code, validator, r),
    ensures
        match crate::naga_support::wgsl_parse(code) {
            crate::naga_support::WgslParse::Parsed { validation, .. } => match validation(validator) {
                None => r is Ok,
                Some(report) => match r {
                    Err(d) => {
                        &&& d.severity == Some(DiagnosticSeverity::Error)
                        &&& d.source matches Some(s) && s@ == "wgsl"@
                        &&& d.message@ == report.debug
                        &&& d.range.start == (Position { line: 0, character: 0 })
                        &&& d.range.end == (Position { line: 0, character: 0 })
                    },
                    Ok(()) => false,
                },
            },
            crate::naga_support::WgslParse::Failed { report, labels } => match r {
                Err(d) => {
                    &&& d.severity == Some(DiagnosticSeverity::Error)
                    &&& d.source matches Some(s) && s@ == "wgsl"@
                    &&& d.message@ == report
                    &&& d.range.end == d.range.start
                    &&& if labels.len() > 0 && labels[0].0 <= labels[0].1 && labels[0].0 < 0xffff_ffffu32
                        && labels[0].0 <= vstd::utf8::encode_utf8(code).len()
                        && vstd::utf8::is_char_boundary(vstd::utf8::encode_utf8(code), labels[0].0 as int) {
                        &&& d.range.start.line + 1 == crate::naga_support::offset_location(code, labels[0].0 as int).0
                        &&& d.range.start.character == crate::naga_support::offset_location(code, labels[0].0 as int).1
                    } else {
                        d.range.start == (Position { line: 0, character: 0 })
                    }
                },
                Ok(()) => false,
            },
        },
{
    if let crate::naga_support::WgslParse::Failed { labels, .. } = crate::naga_support::wgsl_parse(code) {
        if labels.len() > 0 {
            crate::naga_support::lemma_location_safe_is_nagas_condition(labels[0], code);
            if crate::naga_support::location_safe(labels[0], code) {
                crate::naga_support::lemma_location_bounds(code, labels[0].0 as int);
            }
        }
    }
}

/// The diagnostics to publish for the outcome of checking a document: none
/// when it is valid, else the one diagnostic.
pub fn diagnostics_of(outcome: Result<(), Diagnostic>) -> (diagnostics: Vec<Diagnostic>)
    ensures
        match outcome {
            Ok(()) => diagnostics@.len() == 0,
            Err(d) => diagnostics@ == seq![d],
        },
{
    match outcome {
        Ok(()) => Vec::new(),
        Err(d) => {
            let mut diagnostics = Vec::new();
            diagnostics.push(d);
            diagnostics
        },
    }
}

/// Whether a text is the given literal's text.
pub open spec fn text_is(text: Seq<char>, literal: &str) -> bool {
    text == literal@
}

/// What the language server's loop receives, as far as it decides on it.
#[derive(PartialEq, Eq, Structural)]
pub enum LspEvent {
    /// The client asks the server to shut down.
    Shutdown,
    /// A request for the definition of a symbol.
    GotoDefinition,
    /// Another request.
    OtherRequest,
    /// A document was opened.
    DocumentOpened,
    /// A document was saved.
    DocumentSaved,
    /// Another notification.
    OtherNotification,
    /// A response to a request of the server.
    Response,
}

/// What the language server's loop does next.
#[derive(PartialEq, Eq, Structural)]
pub enum LspAction {
    /// Leave the loop.
    Stop,
    /// Answer the request with an empty list of locations.
    ReplyNoDefinitions,
    /// Check the document and publish its diagnostics.
    CheckAndPublish,
    /// Do nothing.
    Ignore,
}

/// Tells a request apart by its method: a definition request
/// (`textDocument/definition`) or another one.
pub fn request_event(method: &str) -> (event: LspEvent)
    ensures
        event == (if text_is(method@, "textDocument/definition") {
            LspEvent::GotoDefinition
        } else {
            LspEvent::OtherRequest
        }),
{
    if method.to_owned() == "textDocument/definition".to_owned() {
        LspEvent::GotoDefinition
    } else {
        LspEvent::OtherRequest
    }
}

/// Tells a notification apart by its method: an opened document
/// (`textDocument/didOpen`), a saved one (`textDocument/didSave`), or
/// another notification.
pub fn notification_event(method: &str) -> (event: LspEvent)
    ensures
        event == (if text_is(method@, "textDocument/didOpen") {
            LspEvent::DocumentOpened
        } else if text_is(method@, "textDocument/didSave") {
            LspEvent::DocumentSaved
        } else {
            LspEvent::OtherNotification
        }),
{
    let method = method.to_owned();
    if method == "textDocument/didOpen".to_owned() {
        LspEvent::DocumentOpened
    } else if method == "textDocument/didSave".to_owned() {
        LspEvent::DocumentSaved
    } else {
        LspEvent::OtherNotification
    }
}

/// The step of the language server's loop: stop on shutdown, answer a
/// definition request with no locations, check and publish a document that
/// was opened or saved, and ignore everything else.
pub fn next_action(event: &LspEvent) -> (action: LspAction)
    ensures
        action == match *event {
            LspEvent::Shutdown => LspAction::Stop,
            LspEvent::GotoDefinition => LspAction::ReplyNoDefinitions,
            LspEvent::DocumentOpened => LspAction::CheckAndPublish,
            LspEvent::DocumentSaved => LspAction::CheckAndPublish,
            _ => LspAction::Ignore,
        },
{
    match event {
        LspEvent::Shutdown => LspAction::Stop,
        LspEvent::GotoDefinition => LspAction::ReplyNoDefinitions,
        LspEvent::DocumentOpened => LspAction::CheckAndPublish,
        LspEvent::DocumentSaved => LspAction::CheckAndPublish,
        _ => LspAction::Ignore,
    }
}

} // verus!
