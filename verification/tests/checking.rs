use cargo_wgsl::naga::{Naga, WgslTree};
use cargo_wgsl::naga_support::location_is_safe;
use cargo_wgsl::validator::WgslValidator;
use cargo_wgsl::wgsl_error::WgslError;

const VALID: &str = "@compute @workgroup_size(1)\nfn main() {}\n";
const UNPARSABLE: &str = "fn main() {\n    let x = ;\n}\n";
const INVALID: &str = "@vertex\nfn main() {}\n";
const OUTLINED: &str = "struct Light {\n    power: f32,\n}\n\nvar<private> brightness: f32;\nvar<private> tint: vec3<f32>;\n\nfn helper(l: Light) -> f32 {\n    return l.power;\n}\n\nfn other() {}\n\n@compute @workgroup_size(1)\nfn main() {}\n";

#[test]
fn valid_shader_is_accepted() {
    let mut naga = Naga::new();
    assert!(naga.validate_wgsl(VALID).is_ok());
}

#[test]
fn unparsable_shader_is_a_parser_error_on_its_line() {
    let mut naga = Naga::new();
    match naga.validate_wgsl(UNPARSABLE) {
        Err(WgslError::ParserErr { error, line, pos }) => {
            assert_eq!(line, 2);
            assert!(pos >= 1);
            assert!(!error.is_empty());
            assert_ne!(error, UNPARSABLE);
        }
        other => panic!("expected a parser error, got {:?}", other),
    }
}

#[test]
fn invalid_module_is_a_validation_error_keeping_the_source() {
    let mut naga = Naga::new();
    match naga.validate_wgsl(INVALID) {
        Err(WgslError::ValidationErr { src, .. }) => assert_eq!(src, INVALID),
        other => panic!("expected a validation error, got {:?}", other),
    }
}

#[test]
fn second_validator_agrees() {
    let mut v = WgslValidator::new();
    assert!(v.validate_wgsl(VALID).is_ok());
    assert!(matches!(v.validate_wgsl(UNPARSABLE), Err(WgslError::ParserErr { line: 2, .. })));
    assert!(matches!(v.validate_wgsl(INVALID), Err(WgslError::ValidationErr { .. })));
}

#[test]
fn empty_source_is_valid() {
    let mut naga = Naga::new();
    assert!(naga.validate_wgsl("").is_ok());
    let tree = naga.get_wgsl_tree("").unwrap();
    assert!(tree.types.is_empty() && tree.global_variables.is_empty() && tree.functions.is_empty());
}

#[test]
fn tree_lists_named_declarations_in_order() {
    let mut naga = Naga::new();
    let tree = naga.get_wgsl_tree(OUTLINED).unwrap();
    assert_eq!(tree.types, vec!["Light".to_string()]);
    assert_eq!(tree.global_variables, vec!["brightness".to_string(), "tint".to_string()]);
    assert_eq!(tree.functions, vec!["helper".to_string(), "other".to_string()]);
}

#[test]
fn tree_of_unparsable_shader_is_its_parser_error() {
    let mut naga = Naga::new();
    assert!(matches!(naga.get_wgsl_tree(UNPARSABLE), Err(WgslError::ParserErr { line: 2, .. })));
}

#[test]
fn shader_that_fails_validation_still_has_a_tree() {
    let mut naga = Naga::new();
    assert!(naga.validate_wgsl(INVALID).is_err());
    let tree = naga.get_wgsl_tree(INVALID).unwrap();
    assert!(tree.functions.is_empty());
}

#[test]
fn keep_named_drops_unnamed_items() {
    let names = vec![None, Some("a".to_string()), None, Some("b".to_string())];
    assert_eq!(cargo_wgsl::naga::keep_named(&names), vec!["a".to_string(), "b".to_string()]);
    let tree = WgslTree::from_names(&names, &vec![None], &vec![Some("f".to_string())]);
    assert_eq!(tree.types, vec!["a".to_string(), "b".to_string()]);
    assert!(tree.global_variables.is_empty());
    assert_eq!(tree.functions, vec!["f".to_string()]);
}

#[test]
fn default_tree_is_empty() {
    let tree = WgslTree::default();
    assert!(tree.types.is_empty() && tree.global_variables.is_empty() && tree.functions.is_empty());
}

#[test]
fn parser_error_takes_the_location_or_zeros() {
    match WgslError::parser_error("bad".to_string(), Some((3, 7))) {
        WgslError::ParserErr { error, line, pos } => {
            assert_eq!((error.as_str(), line, pos), ("bad", 3, 7));
        }
        _ => panic!(),
    }
    assert!(matches!(
        WgslError::parser_error("bad".to_string(), None),
        WgslError::ParserErr { line: 0, pos: 0, .. }
    ));
}

#[test]
fn io_error_converts() {
    let err: WgslError = std::io::Error::new(std::io::ErrorKind::NotFound, "gone").into();
    assert!(matches!(err, WgslError::IoErr(_)));
}

#[test]
fn parse_error_is_placed_at_its_first_label() {
    let code = "fn main() {\n    let x = ;\n}\n";
    let error = match naga::front::wgsl::parse_str(code) {
        Err(e) => e,
        Ok(_) => panic!("expected a parse error"),
    };
    let expected = error.location(code).map(|l| (l.line_number as usize, l.line_position as usize));
    match WgslError::from_parse_err(error, code) {
        WgslError::ParserErr { error, line, pos } => {
            assert_eq!(Some((line, pos)), expected);
            assert_eq!(line, 2);
            assert!(pos >= 1 && pos <= "    let x = ;".len() + 1);
            assert!(!error.is_empty());
        }
        other => panic!("expected a parser error, got {:?}", other),
    }
}

#[test]
fn location_safety_of_spans() {
    let code = "a\u{e9}b\n";
    assert!(location_is_safe((0, 1), code));
    assert!(location_is_safe((1, 3), code));
    assert!(!location_is_safe((2, 3), code));
    assert!(location_is_safe((5, 5), code));
    assert!(!location_is_safe((6, 6), code));
    assert!(!location_is_safe((3, 1), code));
    assert!(!location_is_safe((u32::MAX, u32::MAX), code));
}

#[test]
fn checking_twice_with_one_checker_agrees() {
    let mut naga = Naga::new();
    let first = format!("{:?}", naga.validate_wgsl(INVALID).map_err(|e| matches!(e, WgslError::ValidationErr { .. })));
    let second = format!("{:?}", naga.validate_wgsl(INVALID).map_err(|e| matches!(e, WgslError::ValidationErr { .. })));
    assert_eq!(first, second);
}

#[test]
fn fresh_checkers_agree_on_each_shader() {
    for shader in [VALID, UNPARSABLE, INVALID, OUTLINED] {
        let mut first = Naga::new();
        let mut second = Naga::new();
        let mut third = WgslValidator::new();
        let a = first.validate_wgsl(shader);
        let b = second.validate_wgsl(shader);
        let c = third.validate_wgsl(shader);
        assert_eq!(a.is_ok(), b.is_ok());
        assert_eq!(a.is_ok(), c.is_ok());
        match (a, b) {
            (Err(WgslError::ValidationErr { src: s1, error: e1 }), Err(WgslError::ValidationErr { src: s2, error: e2 })) => {
                assert_eq!(s1, s2);
                assert_eq!(format!("{}", e1), format!("{}", e2));
            }
            (Err(WgslError::ParserErr { error: e1, line: l1, pos: p1 }), Err(WgslError::ParserErr { error: e2, line: l2, pos: p2 })) => {
                assert_eq!((e1, l1, p1), (e2, l2, p2));
            }
            (Ok(()), Ok(())) => {}
            _ => panic!("fresh checkers disagree"),
        }
    }
}
