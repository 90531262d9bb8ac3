//! One entry of the command line's report, and the text of each kind.

use vstd::prelude::*;
use vstd::string::StringExecFns;
use colored::Colorize;
use crate::naga::WgslSource;
use crate::server::debug_text;
use crate::wgsl_error::WgslError;

verus! {

/// A message of the report: its text, and whether it reports a failure.
pub struct OutputMessage {
    pub is_err: bool,
    pub text: String,
}

/// A text wrapped in the ANSI escape sequence that sets the style `code` and
/// the one that resets every style.
pub open spec fn ansi_painted(code: Seq<char>, text: Seq<char>) -> Seq<char> {
    seq!['\x1B', '['] + code + seq!['m'] + text + seq!['\x1B', '[', '0', 'm']
}

/// Whether `label` is `text` as `colored` writes it in the style `code`:
/// painted where the terminal and the environment ask for colours, else
/// plain.
pub open spec fn painted_or_plain(label: Seq<char>, code: Seq<char>, text: Seq<char>) -> bool {
    label == text || label == ansi_painted(code, text)
}

/// The style code of bold bright green.
pub open spec fn bold_bright_green_code() -> Seq<char> {
    seq!['1', ';', '9', '2']
}

/// The style code of blue.
pub open spec fn blue_code() -> Seq<char> {
    seq!['3', '4']
}

/// The style code of bold red.
pub open spec fn bold_red_code() -> Seq<char> {
    seq!['1', ';', '3', '1']
}

/// Whether a text holds no escape character.
pub open spec fn escape_free(text: Seq<char>) -> bool {
    forall|i: int| 0 <= i < text.len() ==> text[i] != '\x1B'
}

/// The decimal digit of a number below ten.
pub open spec fn digit_char(d: nat) -> char {
    (48 + d) as char
}

/// The decimal notation of a number, without sign or leading zeros.
pub open spec fn decimal(n: nat) -> Seq<char>
    decreases n,
{
    if n < 10 {
        seq![digit_char(n)]
    } else {
        decimal(n / 10).push(digit_char(n % 10))
    }
}

/// `text.bright_green().bold()` of `colored`, written out. Colored's source
/// writes the text alone where colours are off (by the environment or because
/// standard output is no terminal), and otherwise wraps it in the escape
/// sequences of its style; a text without escape characters is not altered.
#[verifier::external_body]
fn bold_bright_green(text: &str) -> (label: String)
    requires
        escape_free(text@),
    ensures
        painted_or_plain(label@, bold_bright_green_code(), text@),
{
    text.bright_green().bold().to_string()
}

/// `text.blue()` of `colored`, written out; see `bold_bright_green`.
#[verifier::external_body]
fn blue(text: &str) -> (label: String)
    requires
        escape_free(text@),
    ensures
        painted_or_plain(label@, blue_code(), text@),
{
    text.blue().to_string()
}

/// `text.red().bold()` of `colored`, written out; see `bold_bright_green`.
#[verifier::external_body]
fn bold_red(text: &str) -> (label: String)
    requires
        escape_free(text@),
    ensures
        painted_or_plain(label@, bold_red_code(), text@),
{
    text.red().bold().to_string()
}

/// `usize::to_string`: the decimal notation of a number.
#[verifier::external_body]
fn decimal_string(n: usize) -> (s: String)
    ensures
        s@ == decimal(n as nat),
{
    n.to_string()
}

/// The text of a success: a check mark, the label "Success" and the path.
pub open spec fn success_text(label: Seq<char>, path: Seq<char>) -> Seq<char> {
    "\u{2705} "@ + label + " "@ + path
}

/// The text of an error at a place: an arrow, the path with the line and
/// column, and on the next line the label "error" and the error's text.
pub open spec fn located_text(
    arrow: Seq<char>,
    path: Seq<char>,
    line: usize,
    pos: usize,
    label: Seq<char>,
    error: Seq<char>,
) -> Seq<char> {
    arrow + " "@ + path + ":"@ + decimal(line as nat) + ":"@ + decimal(pos as nat) + "\n"@ + label
        + ": "@ + error
}

/// The text of an error at no known place: a cross, the path, and on the
/// next line the error's debug rendering.
pub open spec fn unknown_text(path: Seq<char>, debug: Seq<char>) -> Seq<char> {
    "\u{274C} "@ + path + " \n"@ + debug
}

impl OutputMessage {
    /// Whether this message reports the error `error` of `path` at `line` and
    /// `pos`, in the styles of the report.
    pub open spec fn is_located(self, path: Seq<char>, line: usize, pos: usize, error: Seq<char>) -> bool {
        &&& self.is_err
        &&& exists|arrow: Seq<char>, label: Seq<char>|
            painted_or_plain(arrow, blue_code(), "-->"@) && painted_or_plain(
                label,
                bold_red_code(),
                "error"@,
            ) && #[trigger] located_text(arrow, path, line, pos, label, error) == self.text@
    }

    /// The message that the shader at `path` is valid.
    pub fn success(path: &str) -> (m: Self)
        ensures
            !m.is_err,
            exists|label: Seq<char>|
                painted_or_plain(label, bold_bright_green_code(), "Success"@) && #[trigger] success_text(
                    label,
                    path@,
                ) == m.text@,
    {
        let word = "Success";
        proof {
            reveal_strlit("Success");
        }
        let label = bold_bright_green(word);
        let mut text = "\u{2705} ".to_owned();
        text.append(label.as_str());
        text.append(" ");
        text.append(path);
        assert(success_text(label@, path@) == text@);
        OutputMessage { is_err: false, text }
    }

    /// The message of an error of `path` at `line` and `pos`.
    pub fn located_error(path: &str, error: &str, line: usize, pos: usize) -> (m: Self)
        ensures
            m.is_located(path@, line, pos, error@),
    {
        proof {
            reveal_strlit("-->");
            reveal_strlit("error");
        }
        let arrow = blue("-->");
        let label = bold_red("error");
        let mut text = arrow.clone();
        text.append(" ");
        text.append(path);
        text.append(":");
        text.append(decimal_string(line).as_str());
        text.append(":");
        text.append(decimal_string(pos).as_str());
        text.append("\n");
        text.append(label.as_str());
        text.append(": ");
        text.append(error);
        assert(located_text(arrow@, path@, line, pos, label@, error@) == text@);
        OutputMessage { is_err: true, text }
    }

    /// The message of a parse error in `source`: naga's report of it, at the
    /// place of its first label, or at 0 and 0 where it has none (or where
    /// naga's `ParseError::location` would panic on it).
    pub fn parser_error(source: &WgslSource, error: ::naga::front::wgsl::ParseError) -> (m: Self)
        ensures
            m.is_err,
            exists|line: usize, pos: usize| #[trigger]
                crate::wgsl_error::located_at(
                    source.code@,
                    crate::naga_support::parse_error_labels(error),
                    line,
                    pos,
                ) && m.is_located(
                    source.path@,
                    line,
                    pos,
                    crate::naga_support::parse_error_report_text(error, source.code@),
                ),
    {
        match WgslError::from_parse_err(error, source.code.as_str()) {
            WgslError::ParserErr { error, line, pos } => Self::located_error(
                source.path.as_str(),
                error.as_str(),
                line,
                pos,
            ),
            other => Self::unknown_error(source.path.as_str(), other),
        }
    }

    /// The message of an error of `path` that has no place: its debug
    /// rendering.
    pub fn unknown_error<D: std::fmt::Debug>(path: &str, error: D) -> (m: Self)
        ensures
            m.is_err,
            exists|debug: Seq<char>| #[trigger] unknown_text(path@, debug) == m.text@,
    {
        let debug = debug_text(&error);
        let mut text = "\u{274C} ".to_owned();
        text.append(path);
        text.append(" \n");
        text.append(debug.as_str());
        assert(unknown_text(path@, debug@) == text@);
        OutputMessage { is_err: true, text }
    }

    /// The message of an error of `path`: a parser error at its line and
    /// column, anything else by its debug rendering.
    pub fn error(path: &str, err: WgslError) -> (m: Self)
        ensures
            m.is_err,
            match err {
                WgslError::ParserErr { error, line, pos } => m.is_located(path@, line, pos, error@),
                _ => exists|debug: Seq<char>| #[trigger] unknown_text(path@, debug) == m.text@,
            },
    {
        match err {
            WgslError::ParserErr { error, line, pos } => Self::located_error(
                path,
                error.as_str(),
                line,
                pos,
            ),
            other => Self::unknown_error(path, other),
        }
    }
}

} // verus!
