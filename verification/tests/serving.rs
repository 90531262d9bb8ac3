use cargo_wgsl::lsp::{
    diagnostics_of, next_action, notification_event, request_event, validate_file, Diagnostic,
    DiagnosticSeverity, LspAction, LspEvent, Position,
};
use cargo_wgsl::naga::Naga;
use cargo_wgsl::server::ValidateFileResponse;
use cargo_wgsl::wgsl_error::WgslError;

#[test]
fn valid_outcome_answers_ok_true() {
    assert!(matches!(ValidateFileResponse::from_outcome(Ok(())), ValidateFileResponse::Valid(true)));
}

#[test]
fn parser_error_is_passed_on_without_scopes() {
    let err = WgslError::ParserErr { error: "bad".to_string(), line: 4, pos: 2 };
    match ValidateFileResponse::from_outcome(Err(err)) {
        ValidateFileResponse::ParserErr { error, scopes, line, pos } => {
            assert_eq!((error.as_str(), scopes.len(), line, pos), ("bad", 0, 4, 2));
        }
        _ => panic!(),
    }
}

#[test]
fn io_error_is_unknown() {
    let err: WgslError = std::io::Error::new(std::io::ErrorKind::NotFound, "gone").into();
    match ValidateFileResponse::from_outcome(Err(err)) {
        ValidateFileResponse::UnknownError(text) => assert!(text.contains("IoErr")),
        _ => panic!(),
    }
}

#[test]
fn validation_error_is_located_at_its_first_span() {
    let code = "@vertex\nfn main() {}\n";
    let mut naga = Naga::new();
    let outcome = naga.validate_wgsl(code);
    assert!(matches!(outcome, Err(WgslError::ValidationErr { .. })));
    match ValidateFileResponse::from_outcome(outcome) {
        ValidateFileResponse::ParserErr { error, scopes, line, pos } => {
            assert!(scopes.is_empty());
            assert!(line >= 1 && line <= 2);
            assert!(pos >= 1);
            assert!(error.contains(".\n\n"));
        }
        ValidateFileResponse::ValidationErr { message, debug } => {
            assert!(message.ends_with(&debug));
            assert!(message.contains(".\n\n"));
        }
        _ => panic!(),
    }
}

#[test]
fn validation_failure_composes_message() {
    match ValidateFileResponse::validation_failure("Msg".to_string(), "Dbg".to_string(), Some((3, 5))) {
        ValidateFileResponse::ParserErr { error, scopes, line, pos } => {
            assert_eq!((error.as_str(), scopes.len(), line, pos), ("Msg.\n\nDbg", 0, 3, 5));
        }
        _ => panic!(),
    }
    match ValidateFileResponse::validation_failure("Msg".to_string(), "Dbg".to_string(), None) {
        ValidateFileResponse::ValidationErr { message, debug } => {
            assert_eq!((message.as_str(), debug.as_str()), ("Msg.\n\nDbg", "Dbg"));
        }
        _ => panic!(),
    }
}

#[test]
fn lsp_valid_document_has_no_diagnostics() {
    let mut naga = Naga::new();
    let outcome = validate_file(&mut naga, "fn f() {}\n");
    assert!(outcome.is_ok());
    assert!(diagnostics_of(outcome).is_empty());
}

#[test]
fn lsp_parse_error_is_on_the_zero_based_line() {
    let mut naga = Naga::new();
    let outcome = validate_file(&mut naga, "fn main() {\n    let x = ;\n}\n");
    let diagnostics = diagnostics_of(outcome);
    assert_eq!(diagnostics.len(), 1);
    let d = &diagnostics[0];
    assert_eq!(d.range.start.line, 1);
    assert!(d.range.start.character >= 1);
    assert!(d.range.start == d.range.end);
    assert!(d.severity == Some(DiagnosticSeverity::Error));
    assert_eq!(d.source.as_deref(), Some("wgsl"));
}

#[test]
fn lsp_validation_error_is_at_document_start() {
    let mut naga = Naga::new();
    let d = validate_file(&mut naga, "@vertex\nfn main() {}\n").unwrap_err();
    assert!(d.range.start == Position { line: 0, character: 0 });
    assert!(!d.message.is_empty());
}

#[test]
fn lsp_parse_failure_converts_line() {
    let d = Diagnostic::parse_failure("m".to_string(), Some((5, 9)));
    assert!(d.range.start == Position { line: 4, character: 9 });
    let d = Diagnostic::parse_failure("m".to_string(), None);
    assert!(d.range.start == Position { line: 0, character: 0 });
    let d = Diagnostic::read_failure("no file".to_string());
    assert_eq!(d.message, "no file");
    assert!(d.range.end == Position { line: 0, character: 0 });
}

#[test]
fn validation_answer_is_message_blank_line_debug() {
    let code = "@vertex\nfn main() {}\n";
    let module = naga::front::wgsl::parse_str(code).unwrap();
    let error = naga::valid::Validator::new(
        naga::valid::ValidationFlags::all(),
        naga::valid::Capabilities::all(),
    )
    .validate(&module)
    .unwrap_err();
    let expected = format!("{}.\n\n{:#?}", error, error);
    let has_span = error.spans().next().is_some();
    let outcome = Err(WgslError::ValidationErr { src: code.to_string(), error });
    match ValidateFileResponse::from_outcome(outcome) {
        ValidateFileResponse::ParserErr { error, scopes, line, pos } => {
            assert!(has_span);
            assert_eq!(error, expected);
            assert!(scopes.is_empty() && line >= 1 && pos >= 1);
        }
        ValidateFileResponse::ValidationErr { message, .. } => {
            assert!(!has_span);
            assert_eq!(message, expected);
        }
        _ => panic!(),
    }
}

#[test]
fn lsp_loop_steps() {
    assert!(request_event("textDocument/definition") == LspEvent::GotoDefinition);
    assert!(request_event("textDocument/hover") == LspEvent::OtherRequest);
    assert!(notification_event("textDocument/didOpen") == LspEvent::DocumentOpened);
    assert!(notification_event("textDocument/didSave") == LspEvent::DocumentSaved);
    assert!(notification_event("textDocument/didChange") == LspEvent::OtherNotification);
    assert!(next_action(&LspEvent::Shutdown) == LspAction::Stop);
    assert!(next_action(&LspEvent::GotoDefinition) == LspAction::ReplyNoDefinitions);
    assert!(next_action(&LspEvent::DocumentOpened) == LspAction::CheckAndPublish);
    assert!(next_action(&LspEvent::DocumentSaved) == LspAction::CheckAndPublish);
    assert!(next_action(&LspEvent::OtherNotification) == LspAction::Ignore);
    assert!(next_action(&LspEvent::Response) == LspAction::Ignore);
}

#[test]
fn lsp_parse_error_message_is_nagas_report() {
    let code = "fn main() {\n    let x = ;\n}\n";
    let error = naga::front::wgsl::parse_str(code).unwrap_err();
    let report = error.emit_to_string(code);
    let (line, column) = error.location(code).map(|l| (l.line_number, l.line_position)).unwrap();
    let mut naga = Naga::new();
    let d = validate_file(&mut naga, code).unwrap_err();
    assert_eq!(d.message, report);
    assert!(d.range.start == Position { line: line - 1, character: column });
}

#[test]
fn lsp_fresh_checkers_give_equal_diagnostics() {
    for code in ["fn f() {}\n", "fn main() {\n    let x = ;\n}\n", "@vertex\nfn main() {}\n"] {
        let mut first = Naga::new();
        let mut second = Naga::new();
        match (validate_file(&mut first, code), validate_file(&mut second, code)) {
            (Ok(()), Ok(())) => {}
            (Err(d1), Err(d2)) => {
                assert_eq!(d1.message, d2.message);
                assert_eq!(d1.source, d2.source);
                assert!(d1.range == d2.range);
                assert!(d1.severity == d2.severity);
            }
            _ => panic!("fresh checkers disagree"),
        }
    }
}
