//! The errors that checking a WGSL shader can end in.

use vstd::prelude::*;
use crate::naga_support::{
    first_label, location_is_safe, parse_error_location, parse_error_report, span_bounds,
};

verus! {

#[verifier::external_type_specification]
#[verifier::external_body]
pub struct ExIoError(std::io::Error);

/// Why a shader was refused.
#[derive(Debug)]
pub enum WgslError {
    /// The shader parsed but naga's validator refused the module; `src` is
    /// the shader's source, kept to locate the error's spans.
    ValidationErr { src: String, error: ::naga::WithSpan<::naga::valid::ValidationError> },
    /// The shader did not parse: naga's report, and the 1-based line and
    /// column of the error, or 0 and 0 where naga gives no location.
    ParserErr { error: String, line: usize, pos: usize },
    /// The shader could not be read.
    IoErr(std::io::Error),
}

impl From<std::io::Error> for WgslError {
    fn from(err: std::io::Error) -> (r: Self) {
        WgslError::IoErr(err)
    }
}

impl vstd::std_specs::convert::FromSpecImpl<std::io::Error> for WgslError {
    open spec fn obeys_from_spec() -> bool {
        true
    }

    open spec fn from_spec(err: std::io::Error) -> Self {
        WgslError::IoErr(err)
    }
}

/// The parser error that a report and an optional location make.
pub open spec fn spec_parser_error(error: Seq<char>, location: Option<(u32, u32)>) -> (Seq<char>, usize, usize) {
    match location {
        Some((line, column)) => (error, line as usize, column as usize),
        None => (error, 0usize, 0usize),
    }
}

/// Where a parse error with the given labels lies in `source`: where its
/// first label is `location_safe`, that label's `offset_location` (a 1-based
/// line of at most one more than the source's newlines, and a 1-based byte
/// column of at most one more than its length); where it has no label, or
/// where naga's `ParseError::location` would panic on it, nowhere.
pub open spec fn parse_error_place(source: Seq<char>, labels: Seq<(u32, u32)>) -> Option<(int, int)> {
    if labels.len() > 0 && crate::naga_support::location_safe(labels[0], source) {
        Some(crate::naga_support::offset_location(source, labels[0].0 as int))
    } else {
        None
    }
}

/// Whether `line` and `pos` are the place of a parse error with the given
/// labels: its `parse_error_place`, or 0 and 0 where it has none.
pub open spec fn located_at(source: Seq<char>, labels: Seq<(u32, u32)>, line: usize, pos: usize) -> bool {
    match parse_error_place(source, labels) {
        Some((l, c)) => line == l && pos == c,
        None => line == 0 && pos == 0,
    }
}

/// Whether `e` is the parser error of a parse of `source` that failed with
/// the given report and labels: the report as its text, at its place.
pub open spec fn is_parse_error_of(
    source: Seq<char>,
    report: Seq<char>,
    labels: Seq<(u32, u32)>,
    e: WgslError,
) -> bool {
    e matches WgslError::ParserErr { error, line, pos } && error@ == report && located_at(
        source,
        labels,
        line,
        pos,
    )
}

/// The line and column of a parse error in `src`, as naga's
/// `ParseError::location` gives them, where it has a first label on which
/// that call returns.
pub(crate) fn parse_error_line_column(err: &::naga::front::wgsl::ParseError, src: &str) -> (location: Option<(u32, u32)>)
    ensures
        match parse_error_place(src@, crate::naga_support::parse_error_labels(*err)) {
            Some((l, c)) => location == Some((l as u32, c as u32)) && 1 <= l <= u32::MAX && 1 <= c <= u32::MAX,
            None => location is None,
        },
{
    match first_label(err) {
        None => None,
        Some(span) => {
            let range = span_bounds(span);
            if location_is_safe(range, src) {
                proof {
                    crate::naga_support::lemma_location_bounds(src@, range.0 as int);
                }
                parse_error_location(err, src)
            } else {
                None
            }
        },
    }
}

/// A parse error is placed where naga's `ParseError::location` places it:
/// where its first label is not reversed (an empty label included), begins at
/// a character boundary at or before the end of the source and begins before
/// `u32::MAX`, at the 1-based line and column of that label's start; at 0 and
/// 0 only where it has no label or where naga's `location` would panic. Its
/// text is naga's report.
pub proof fn lemma_parse_error_placed_as_naga_places_it(
    source: Seq<char>,
    report: Seq<char>,
    labels: Seq<(u32, u32)>,
    e: WgslError,
)
    requires
        is_parse_error_of(source, report, labels, e),
    ensures
        match e {
            WgslError::ParserErr { error, line, pos } => {
                &&& error@ == report
                &&& if labels.len() > 0 && labels[0].0 <= labels[0].1 && labels[0].0 < 0xffff_ffffu32
                    && labels[0].0 <= vstd::utf8::encode_utf8(source).len()
                    && vstd::utf8::is_char_boundary(vstd::utf8::encode_utf8(source), labels[0].0 as int) {
                    &&& line as int == crate::naga_support::offset_location(source, labels[0].0 as int).0
                    &&& pos as int == crate::naga_support::offset_location(source, labels[0].0 as int).1
                    &&& line >= 1
                    &&& pos >= 1
                } else {
                    line == 0 && pos == 0
                }
            },
            _ => false,
        },
{
    if labels.len() > 0 {
        crate::naga_support::lemma_location_safe_is_nagas_condition(labels[0], source);
        if crate::naga_support::location_safe(labels[0], source) {
            crate::naga_support::lemma_location_bounds(source, labels[0].0 as int);
        }
    }
}

impl WgslError {
    /// Whether this is a `ParserErr` with the given report, line and column.
    pub open spec fn is_parser_error(self, error: Seq<char>, line: usize, pos: usize) -> bool {
        self matches WgslError::ParserErr { error: e, line: l, pos: p } && e@ == error && l == line
            && p == pos
    }

    /// The parser error of a report and of the location naga gave for it:
    /// its line and column, or 0 and 0 where there is none.
    pub fn parser_error(error: String, location: Option<(u32, u32)>) -> (r: Self)
        ensures
            ({
                let (e, l, p) = spec_parser_error(error@, location);
                r.is_parser_error(e, l, p)
            }),
    {
        match location {
            Some((line, column)) => WgslError::ParserErr {
                error,
                line: line as usize,
                pos: column as usize,
            },
            None => WgslError::ParserErr { error, line: 0, pos: 0 },
        }
    }

    /// The `ParserErr` for a parse error of `src`: naga's report of it against
    /// `src`, at the location of its first label, or at 0 and 0 where it has
    /// no label. Naga's `ParseError::location` panics where the first label
    /// is reversed, begins outside `src` or inside a character, or begins at
    /// `u32::MAX`; there too the error is placed at 0 and 0.
    pub fn from_parse_err(err: ::naga::front::wgsl::ParseError, src: &str) -> (r: Self)
        ensures
            is_parse_error_of(
                src@,
                crate::naga_support::parse_error_report_text(err, src@),
                crate::naga_support::parse_error_labels(err),
                r,
            ),
    {
        let error = parse_error_report(&err, src);
        let location = parse_error_line_column(&err, src);
        Self::parser_error(error, location)
    }
}

} // verus!
