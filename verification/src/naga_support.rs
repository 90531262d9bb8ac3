//! The parts of the `naga` crate that the library calls: its types, declared
//! to Verus, names for what its functions return, and one trusted wrapper per
//! function, each with the contract that naga's source shows.

use vstd::prelude::*;

verus! {

#[verifier::external_type_specification]
#[verifier::external_body]
pub struct ExModule(::naga::Module);

#[verifier::external_type_specification]
#[verifier::external_body]
pub struct ExParseError(::naga::front::wgsl::ParseError);

#[verifier::external_type_specification]
#[verifier::external_body]
pub struct ExValidator(::naga::valid::Validator);

#[verifier::external_type_specification]
#[verifier::external_body]
pub struct ExValidationError(::naga::valid::ValidationError);

#[verifier::external_type_specification]
#[verifier::external_body]
#[verifier::reject_recursive_types(E)]
pub struct ExWithSpan<E>(::naga::WithSpan<E>);

#[verifier::external_type_specification]
#[verifier::external_body]
pub struct ExSpan(::naga::Span);

/// What validating a module reports, as far as this library reads it: the
/// error's message (`Display`), its pretty `Debug` text, and the byte ranges
/// of the spans attached to it, in order.
pub struct ValidationReport {
    pub message: Seq<char>,
    pub debug: Seq<char>,
    pub spans: Seq<(u32, u32)>,
}

/// What parsing a WGSL source yields, as far as this library reads it.
pub enum WgslParse {
    /// The source parsed: the names of the module's types, global variables
    /// and functions, each in the order of its arena, and what a given
    /// validator reports of the module (`None` where it accepts it).
    Parsed {
        types: Seq<Option<Seq<char>>>,
        global_variables: Seq<Option<Seq<char>>>,
        functions: Seq<Option<Seq<char>>>,
        validation: spec_fn(FullValidator) -> Option<ValidationReport>,
    },
    /// The source did not parse: naga's rendered report of the error against
    /// the source, and the byte ranges of the error's labels, in order.
    Failed { report: Seq<char>, labels: Seq<(u32, u32)> },
}

/// What `naga::front::wgsl::parse_str` makes of a source. The parser is
/// deterministic, so this is a function of the source.
pub uninterp spec fn wgsl_parse(source: Seq<char>) -> WgslParse;

/// The names of a module's types, in the order of its type arena.
pub uninterp spec fn module_type_names(module: ::naga::Module) -> Seq<Option<Seq<char>>>;

/// The names of a module's global variables, in the order of their arena.
pub uninterp spec fn module_global_names(module: ::naga::Module) -> Seq<Option<Seq<char>>>;

/// The names of a module's functions, in the order of their arena.
pub uninterp spec fn module_function_names(module: ::naga::Module) -> Seq<Option<Seq<char>>>;

/// What `Validator::validate` reports of a module, for a validator in the
/// state it is in: `None` where it accepts the module. The validator keeps
/// some state from one module to the next (the ray-tracing payload type), so
/// the report depends on the validator as well as on the module.
pub uninterp spec fn module_validation(validator: FullValidator, module: ::naga::Module) -> Option<
    ValidationReport,
>;

/// The byte ranges of a parse error's labels, in order (`ParseError::labels`).
pub uninterp spec fn parse_error_labels(error: ::naga::front::wgsl::ParseError) -> Seq<(u32, u32)>;

/// `ParseError::emit_to_string`: naga's rendered report of a parse error
/// against a source.
pub uninterp spec fn parse_error_report_text(
    error: ::naga::front::wgsl::ParseError,
    source: Seq<char>,
) -> Seq<char>;

/// The byte ranges of the spans attached to a validation error, in order
/// (`WithSpan::spans`).
pub uninterp spec fn validation_spans(error: ::naga::WithSpan<::naga::valid::ValidationError>) -> Seq<(u32, u32)>;

/// The byte range of a span (the undefined span is `(0, 0)`).
pub uninterp spec fn span_range(span: ::naga::Span) -> (u32, u32);

/// The `Display` text of a validation error (its message).
pub uninterp spec fn validation_error_message(
    error: ::naga::WithSpan<::naga::valid::ValidationError>,
) -> Seq<char>;

/// The pretty `Debug` text (`{:#?}`) of a validation error.
pub uninterp spec fn validation_error_debug_text(
    error: ::naga::WithSpan<::naga::valid::ValidationError>,
) -> Seq<char>;

/// What a freshly built validator with every flag and capability on
/// (`Validator::new(ValidationFlags::all(), Capabilities::all())`) reports of
/// the module that `source` parses to: `None` where it accepts it. Such a
/// validator's fields are set from the flags and capabilities alone, and
/// `validate` is deterministic, so this is a function of the source.
pub uninterp spec fn fresh_verdict(source: Seq<char>) -> Option<ValidationReport>;

/// Whether a validator judges every source that parses as a freshly built
/// full validator does.
pub open spec fn is_fresh(validator: FullValidator) -> bool {
    forall|source: Seq<char>|
        #[trigger] wgsl_parse(source) matches WgslParse::Parsed { validation, .. } ==> validation(
            validator,
        ) == fresh_verdict(source)
}

/// What a validation error reports: its message, debug text and spans.
pub open spec fn report_of(error: ::naga::WithSpan<::naga::valid::ValidationError>) -> ValidationReport {
    ValidationReport {
        message: validation_error_message(error),
        debug: validation_error_debug_text(error),
        spans: validation_spans(error),
    }
}

/// The length in bytes of the UTF-8 encoding of a text.
pub open spec fn byte_len(text: Seq<char>) -> nat {
    vstd::utf8::encode_utf8(text).len()
}

/// Whether `Span::location` returns for a span in a source: the span is not
/// reversed (naga subtracts its start from its end), begins inside the source
/// at a character boundary (naga slices the source there), and begins before
/// `u32::MAX` (so that naga's `u32` line and column cannot overflow).
pub open spec fn location_safe(span: (u32, u32), source: Seq<char>) -> bool {
    &&& span.0 <= span.1
    &&& span.0 < u32::MAX
    &&& span.0 <= byte_len(source)
    &&& vstd::utf8::is_char_boundary(vstd::utf8::encode_utf8(source), span.0 as int)
}

/// `location_safe` is exactly the condition under which naga's
/// `Span::location` returns: a span is locatable whatever its offset, as long
/// as it is not reversed, begins at a character boundary at or before the
/// end of the source's bytes, and begins before `u32::MAX`.
pub proof fn lemma_location_safe_is_nagas_condition(span: (u32, u32), source: Seq<char>)
    ensures
        location_safe(span, source) <==> {
            &&& span.0 <= span.1
            &&& span.0 < 0xffff_ffffu32
            &&& span.0 <= vstd::utf8::encode_utf8(source).len()
            &&& vstd::utf8::is_char_boundary(vstd::utf8::encode_utf8(source), span.0 as int)
        },
{
}

/// The number of newline bytes among the first `end` bytes.
pub open spec fn newlines_before(bytes: Seq<u8>, end: int) -> nat
    decreases end,
{
    if end <= 0 {
        0
    } else {
        newlines_before(bytes, end - 1) + if bytes[end - 1] == 10u8 {
            1nat
        } else {
            0nat
        }
    }
}

/// The offset at which the line that holds offset `end` begins: just after
/// the last newline byte before `end`, or 0.
pub open spec fn line_start(bytes: Seq<u8>, end: int) -> int
    decreases end,
{
    if end <= 0 {
        0
    } else if bytes[end - 1] == 10u8 {
        end
    } else {
        line_start(bytes, end - 1)
    }
}

/// The number of newlines in a text.
pub open spec fn newline_count(text: Seq<char>) -> nat {
    newlines_before(vstd::utf8::encode_utf8(text), byte_len(text) as int)
}

/// The 1-based line and 1-based byte column of a byte offset in a source,
/// as `Span::location` computes them: one more than the newlines before the
/// offset, and one more than the bytes between the line's start and it.
pub open spec fn offset_location(source: Seq<char>, offset: int) -> (int, int) {
    let bytes = vstd::utf8::encode_utf8(source);
    ((newlines_before(bytes, offset) + 1) as int, offset - line_start(bytes, offset) + 1)
}

/// Newlines before an offset are at most the bytes before it, and at most
/// the newlines before any later offset.
pub proof fn lemma_newlines_before_bounds(bytes: Seq<u8>, end: int, later: int)
    requires
        0 <= end <= later,
    ensures
        newlines_before(bytes, end) <= end,
        newlines_before(bytes, end) <= newlines_before(bytes, later),
    decreases later,
{
    if later > end {
        lemma_newlines_before_bounds(bytes, end, later - 1);
    } else if end > 0 {
        lemma_newlines_before_bounds(bytes, end - 1, end - 1);
    }
}

/// A line begins at or before every offset on it.
pub proof fn lemma_line_start_bounds(bytes: Seq<u8>, end: int)
    requires
        0 <= end,
    ensures
        0 <= line_start(bytes, end) <= end,
    decreases end,
{
    if end > 0 && bytes[end - 1] != 10u8 {
        lemma_line_start_bounds(bytes, end - 1);
    }
}

/// The location of an offset inside a source names an existing line (one
/// more than the source's newlines at most) and a column of at most the
/// source's length plus one; both are at least 1.
pub proof fn lemma_location_bounds(source: Seq<char>, offset: int)
    requires
        0 <= offset <= byte_len(source),
    ensures
        1 <= offset_location(source, offset).0 <= newline_count(source) + 1,
        1 <= offset_location(source, offset).1 <= byte_len(source) + 1,
        offset_location(source, offset).0 <= offset + 1,
        offset_location(source, offset).1 <= offset + 1,
{
    let bytes = vstd::utf8::encode_utf8(source);
    lemma_newlines_before_bounds(bytes, offset, byte_len(source) as int);
    lemma_line_start_bounds(bytes, offset);
}

/// Whether `Span::location` returns for a span in `source` (see
/// `location_safe`).
pub fn location_is_safe(span: (u32, u32), source: &str) -> (safe: bool)
    ensures
        safe == location_safe(span, source@),
{
    let bytes = source.as_bytes();
    span.0 <= span.1 && span.0 < u32::MAX && (span.0 as usize) <= bytes.len()
        && source.is_char_boundary(span.0 as usize)
}

/// A naga validator with every check and capability on. Only `new` builds
/// one, so every value of this type runs every check.
pub struct FullValidator {
    validator: ::naga::valid::Validator,
}

impl FullValidator {
    /// A validator with every validation flag and capability on, in the
    /// state in which naga builds it: it judges every source as a freshly
    /// built full validator does.
    pub fn new() -> (v: Self)
        ensures
            is_fresh(v),
    {
        new_validator()
    }
}

/// `Validator::new(ValidationFlags::all(), Capabilities::all())`: naga sets
/// every field of the new validator from the flags and capabilities alone,
/// so what it reports of a parsed source is `fresh_verdict` of that source.
/// Nothing else is stated of the validator's state.
#[verifier::external_body]
fn new_validator() -> (v: FullValidator)
    ensures
        forall|source: Seq<char>|
            #[trigger] wgsl_parse(source) matches WgslParse::Parsed { validation, .. } ==> validation(
                v,
            ) == fresh_verdict(source),
{
    FullValidator {
        validator: ::naga::valid::Validator::new(
            ::naga::valid::ValidationFlags::all(),
            ::naga::valid::Capabilities::all(),
        ),
    }
}

/// `naga::front::wgsl::parse_str`. On success the module's names are those
/// that `wgsl_parse` names, and so is what validating it reports; on failure
/// the error's report and labels are.
#[verifier::external_body]
pub(crate) fn parse_wgsl(source: &str) -> (parsed: Result<::naga::Module, ::naga::front::wgsl::ParseError>)
    ensures
        match parsed {
            Ok(module) => wgsl_parse(source@) == (WgslParse::Parsed {
                types: module_type_names(module),
                global_variables: module_global_names(module),
                functions: module_function_names(module),
                validation: |validator: FullValidator| module_validation(validator, module),
            }),
            Err(error) => wgsl_parse(source@) == (WgslParse::Failed {
                report: parse_error_report_text(error, source@),
                labels: parse_error_labels(error),
            }),
        },
{
    ::naga::front::wgsl::parse_str(source)
}

/// `ParseError::emit_to_string`: the rendered report of a parse error.
#[verifier::external_body]
pub(crate) fn parse_error_report(error: &::naga::front::wgsl::ParseError, source: &str) -> (report: String)
    ensures
        report@ == parse_error_report_text(*error, source@),
{
    error.emit_to_string(source)
}

/// `ParseError::labels().next()`: the span of a parse error's first label,
/// if it has one.
#[verifier::external_body]
pub(crate) fn first_label(error: &::naga::front::wgsl::ParseError) -> (span: Option<::naga::Span>)
    ensures
        match span {
            None => parse_error_labels(*error).len() == 0,
            Some(s) => parse_error_labels(*error).len() > 0 && span_range(s) == parse_error_labels(
                *error,
            )[0],
        },
{
    error.labels().next().map(|label| label.0)
}

/// `Span::to_range`: the byte range of a span, `(0, 0)` for the undefined
/// span (for which `to_range` gives `None`).
#[verifier::external_body]
pub(crate) fn span_bounds(span: ::naga::Span) -> (range: (u32, u32))
    ensures
        range == span_range(span),
{
    span.to_range().map_or((0, 0), |range| (range.start as u32, range.end as u32))
}

/// `ParseError::location`: naga's source computes it as
/// `labels.first().map(|label| label.0.location(source))`, so it is `None`
/// exactly when the error has no label, and otherwise the `offset_location`
/// of the first label's start. `Span::location` panics unless the label is
/// `location_safe` in the source, hence the `requires`.
#[verifier::external_body]
pub(crate) fn parse_error_location(
    error: &::naga::front::wgsl::ParseError,
    source: &str,
) -> (location: Option<(u32, u32)>)
    requires
        parse_error_labels(*error).len() > 0 ==> location_safe(parse_error_labels(*error)[0], source@),
    ensures
        match location {
            None => parse_error_labels(*error).len() == 0,
            Some((line, column)) => {
                &&& parse_error_labels(*error).len() > 0
                &&& offset_location(source@, parse_error_labels(*error)[0].0 as int) == (
                    line as int,
                    column as int,
                )
            },
        },
{
    error.location(source).map(|loc| (loc.line_number, loc.line_position))
}

/// `Validator::validate`, with the module info it returns on success dropped:
/// what it reports of the module is `module_validation` of the validator as
/// it was before the call. What the call leaves in the validator is not
/// stated.
#[verifier::external_body]
pub(crate) fn validate_module(
    validator: &mut FullValidator,
    module: &::naga::Module,
) -> (outcome: Result<(), ::naga::WithSpan<::naga::valid::ValidationError>>)
    ensures
        match outcome {
            Ok(()) => module_validation(*old(validator), *module) is None,
            Err(error) => module_validation(*old(validator), *module) == Some(report_of(error)),
        },
{
    validator.validator.validate(module).map(|_| ())
}

/// `WithSpan::spans().next()`: the first span attached to a validation error,
/// if any.
#[verifier::external_body]
pub(crate) fn first_span(
    error: &::naga::WithSpan<::naga::valid::ValidationError>,
) -> (span: Option<::naga::Span>)
    ensures
        match span {
            None => validation_spans(*error).len() == 0,
            Some(s) => validation_spans(*error).len() > 0 && span_range(s) == validation_spans(*error)[0],
        },
{
    error.spans().next().map(|context| context.0)
}

/// `Span::location`: the line and column at which a span begins, its
/// `offset_location`. Naga panics unless the span is `location_safe` in the
/// source, hence the `requires`.
#[verifier::external_body]
pub(crate) fn span_location(span: ::naga::Span, source: &str) -> (location: (u32, u32))
    requires
        location_safe(span_range(span), source@),
    ensures
        offset_location(source@, span_range(span).0 as int) == (location.0 as int, location.1 as int),
{
    let loc = span.location(source);
    (loc.line_number, loc.line_position)
}

/// The `Display` text of a validation error (`format!("{}", error)`).
#[verifier::external_body]
pub(crate) fn validation_error_text(
    error: &::naga::WithSpan<::naga::valid::ValidationError>,
) -> (text: String)
    ensures
        text@ == validation_error_message(*error),
{
    format!("{}", error)
}

/// The pretty `Debug` text of a validation error (`format!("{:#?}", error)`).
#[verifier::external_body]
pub(crate) fn validation_error_debug(
    error: &::naga::WithSpan<::naga::valid::ValidationError>,
) -> (text: String)
    ensures
        text@ == validation_error_debug_text(*error),
{
    format!("{:#?}", error)
}

/// `module.types.iter()`, each type handed out as its name.
#[verifier::external_body]
pub(crate) fn type_names(module: &::naga::Module) -> (names: Vec<Option<String>>)
    ensures
        names.deep_view() == module_type_names(*module),
{
    module.types.iter().map(|(_, ty)| ty.name.clone()).collect()
}

/// `module.global_variables.iter()`, each variable handed out as its name.
#[verifier::external_body]
pub(crate) fn global_variable_names(module: &::naga::Module) -> (names: Vec<Option<String>>)
    ensures
        names.deep_view() == module_global_names(*module),
{
    module.global_variables.iter().map(|(_, var)| var.name.clone()).collect()
}

/// `module.functions.iter()`, each function handed out as its name.
#[verifier::external_body]
pub(crate) fn function_names(module: &::naga::Module) -> (names: Vec<Option<String>>)
    ensures
        names.deep_view() == module_function_names(*module),
{
    module.functions.iter().map(|(_, function)| function.name.clone()).collect()
}

} // verus!
