use cargo_wgsl::cli::output_message::OutputMessage;
use cargo_wgsl::cli::{exit_code, keep_entry, sort_messages};
use cargo_wgsl::naga::{Naga, WgslSource};
use cargo_wgsl::wgsl_error::WgslError;

fn msg(is_err: bool, text: &str) -> OutputMessage {
    OutputMessage { is_err, text: text.to_string() }
}

fn strip_ansi(s: &str) -> String {
    let mut out = String::new();
    let mut chars = s.chars();
    while let Some(c) = chars.next() {
        if c == '\x1B' {
            for d in chars.by_ref() {
                if d == 'm' {
                    break;
                }
            }
        } else {
            out.push(c);
        }
    }
    out
}

#[test]
fn report_puts_successes_first_keeping_order() {
    let sorted = sort_messages(vec![
        msg(true, "e1"),
        msg(false, "s1"),
        msg(true, "e2"),
        msg(false, "s2"),
        msg(false, "s3"),
    ]);
    let texts: Vec<&str> = sorted.iter().map(|m| m.text.as_str()).collect();
    assert_eq!(texts, vec!["s1", "s2", "s3", "e1", "e2"]);
}

#[test]
fn sorting_twice_changes_nothing() {
    let once = sort_messages(vec![msg(true, "e"), msg(false, "s"), msg(true, "f")]);
    let once_texts: Vec<String> = once.iter().map(|m| m.text.clone()).collect();
    let twice = sort_messages(once);
    let twice_texts: Vec<String> = twice.iter().map(|m| m.text.clone()).collect();
    assert_eq!(once_texts, twice_texts);
}

#[test]
fn exit_code_is_one_exactly_when_something_failed() {
    assert_eq!(exit_code(&vec![]), 0);
    assert_eq!(exit_code(&vec![msg(false, "a"), msg(false, "b")]), 0);
    let mixed = vec![msg(false, "a"), msg(true, "b"), msg(false, "c")];
    assert_eq!(exit_code(&mixed), 1);
    assert_eq!(exit_code(&sort_messages(mixed)), 1);
}

#[test]
fn success_message_names_the_path() {
    let m = OutputMessage::success("shaders/a.wgsl");
    assert!(!m.is_err);
    assert_eq!(strip_ansi(&m.text), "\u{2705} Success shaders/a.wgsl");
}

#[test]
fn located_error_shows_path_line_and_column() {
    let m = OutputMessage::located_error("b.wgsl", "oops", 12, 7);
    assert!(m.is_err);
    assert_eq!(strip_ansi(&m.text), "--> b.wgsl:12:7\nerror: oops");
}

#[test]
fn error_message_of_parser_error_is_located() {
    let err = WgslError::ParserErr { error: "bad token".to_string(), line: 3, pos: 10 };
    let m = OutputMessage::error("c.wgsl", err);
    assert!(m.is_err);
    assert_eq!(strip_ansi(&m.text), "--> c.wgsl:3:10\nerror: bad token");
}

#[test]
fn error_message_of_io_error_is_its_debug_rendering() {
    let err: WgslError = std::io::Error::new(std::io::ErrorKind::NotFound, "gone").into();
    let m = OutputMessage::error("d.wgsl", err);
    assert!(m.is_err);
    assert!(m.text.starts_with("\u{274C} d.wgsl \n"));
    assert!(m.text.contains("IoErr"));
    assert!(m.text.contains("gone"));
}

#[test]
fn parser_error_message_from_naga() {
    let code = "fn main() {\n    let x = ;\n}\n".to_string();
    let error = match naga::front::wgsl::parse_str(&code) {
        Err(e) => e,
        Ok(_) => panic!("expected a parse error"),
    };
    let source = WgslSource { path: "e.wgsl".to_string(), code };
    let m = OutputMessage::parser_error(&source, error);
    assert!(m.is_err);
    assert!(strip_ansi(&m.text).starts_with("--> e.wgsl:2:"));
}

#[test]
fn stdin_validation_report() {
    let mut naga = Naga::new();
    let m = match naga.validate_wgsl("fn f() {}") {
        Ok(()) => OutputMessage::success("@stdin"),
        Err(e) => OutputMessage::error("@stdin", e),
    };
    assert!(!m.is_err);
    assert_eq!(exit_code(&vec![m]), 0);
}

#[test]
fn walk_keeps_directories_and_wgsl_files() {
    assert!(keep_entry(true, None));
    assert!(keep_entry(true, Some("rs")));
    assert!(keep_entry(false, Some("wgsl")));
    assert!(!keep_entry(false, Some("WGSL")));
    assert!(!keep_entry(false, Some("rs")));
    assert!(!keep_entry(false, None));
}

#[test]
fn unknown_error_renders_any_debug_value() {
    let m = OutputMessage::unknown_error("p.wgsl", vec![1, 2]);
    assert!(m.is_err);
    assert!(m.text.starts_with("\u{274C} p.wgsl \n"));
    assert!(m.text.contains('1') && m.text.contains('2'));
}
