use inline_python_macros::diagnostic::{ErrorValue, PendingError, SyntaxDetails};
use inline_python_macros::expansion::{expand, CompileOutcome, ContextSource, SourceUnit, MARSHAL_VERSION};

#[test]
fn marshal_version_is_two() {
    assert_eq!(MARSHAL_VERSION, 2);
}

#[test]
fn unit_keeps_text_and_file() {
    let u = SourceUnit::new("x + 1".to_string(), Some("src/lib.rs".to_string()));
    assert_eq!(u.text, "x + 1");
    assert_eq!(u.filename, "src/lib.rs");
}

#[test]
fn unit_without_file_is_unknown() {
    let u = SourceUnit::new("x + 1".to_string(), None);
    assert_eq!(u.filename, "<unknown>");
}

#[test]
fn compiled_script_keeps_bytes_and_fresh_context() {
    let bytes = vec![0xe3u8, 0, 0, 0, 7, 0x29];
    let r = expand::<String>(None, CompileOutcome::Compiled { marshaled: bytes.clone() });
    let x = r.ok().expect("a compiled script expands");
    assert_eq!(x.bytecode, bytes);
    assert!(matches!(x.context, ContextSource::Fresh));
}

#[test]
fn compiled_script_uses_supplied_context() {
    let r = expand(Some("&ctx".to_string()), CompileOutcome::Compiled { marshaled: vec![1, 2, 3] });
    let x = r.ok().expect("a compiled script expands");
    assert_eq!(x.bytecode, vec![1, 2, 3]);
    match x.context {
        ContextSource::Supplied(e) => assert_eq!(e, "&ctx"),
        ContextSource::Fresh => panic!("expected the supplied context"),
    }
}

#[test]
fn failed_script_aborts_with_diagnostic() {
    let p = PendingError {
        is_syntax_error: true,
        kind_name: "SyntaxError".to_string(),
        value: Some(ErrorValue {
            syntax_details: Some(SyntaxDetails {
                message: "'(' was never closed".to_string(),
                file: "<unknown>".to_string(),
                line: 1,
                column: 6,
                token: "def f(\n".to_string(),
            }),
            text: "'(' was never closed (<unknown>, line 1)".to_string(),
        }),
    };
    let r = expand::<String>(Some("&ctx".to_string()), CompileOutcome::Failed { pending: Some(p) });
    assert_eq!(r.err().expect("a failed script aborts"), "'(' was never closed at <unknown>:1:6");
}

#[test]
fn failed_script_without_pending_failure() {
    let r = expand::<String>(None, CompileOutcome::Failed { pending: None });
    assert_eq!(
        r.err().expect("a failed script aborts"),
        "failed to compile python code, but no detailed error is available"
    );
}
