use inline_python_macros::args::{set_once, AttrErrorKind, Args, NameValue};

fn entry(name: &str, span: usize, value: &str) -> NameValue<usize, String> {
    NameValue { name: name.to_string(), name_span: span, value: value.to_string() }
}

#[test]
fn no_options_means_fresh_context() {
    let r = Args::parse(Vec::<NameValue<usize, String>>::new(), "x + 1");
    let a = r.ok().expect("an empty option list is accepted");
    assert!(a.context.is_none());
    assert_eq!(a.code, "x + 1");
}

#[test]
fn single_context_is_kept() {
    let r = Args::parse(vec![entry("context", 3, "&ctx")], "print(1)");
    let a = r.ok().expect("one context option is accepted");
    assert_eq!(a.context, Some("&ctx".to_string()));
    assert_eq!(a.code, "print(1)");
}

#[test]
fn repeated_context_is_duplicate_at_second() {
    let r = Args::parse(vec![entry("context", 0, "&ctx"), entry("context", 9, "&ctx2")], "body");
    let e = r.err().expect("a repeated context option is rejected");
    assert_eq!(e.kind, AttrErrorKind::Duplicate);
    assert_eq!(e.span, 9);
    assert_eq!(e.message(), "duplicate attribute");
}

#[test]
fn unknown_name_is_rejected_at_it() {
    let r = Args::parse(vec![entry("contxt", 4, "&ctx")], "body");
    let e = r.err().expect("an unknown option is rejected");
    assert_eq!(e.kind, AttrErrorKind::Unknown);
    assert_eq!(e.span, 4);
    assert_eq!(e.message(), "unknown attribute");
}

#[test]
fn unknown_after_context_is_rejected_at_it() {
    let r = Args::parse(vec![entry("context", 1, "&ctx"), entry("globals", 7, "g")], "body");
    let e = r.err().expect("an unknown option is rejected");
    assert_eq!(e.kind, AttrErrorKind::Unknown);
    assert_eq!(e.span, 7);
}

#[test]
fn first_fault_decides() {
    let r = Args::parse(
        vec![entry("other", 2, "a"), entry("context", 5, "b"), entry("context", 8, "c")],
        "body",
    );
    let e = r.err().expect("the list is rejected");
    assert_eq!(e.kind, AttrErrorKind::Unknown);
    assert_eq!(e.span, 2);
}

#[test]
fn set_once_fills_empty_destination() {
    let mut d: Option<String> = None;
    assert!(set_once(&mut d, entry("context", 0, "&ctx")).is_ok());
    assert_eq!(d, Some("&ctx".to_string()));
}

#[test]
fn set_once_refuses_second_value() {
    let mut d: Option<String> = Some("&ctx".to_string());
    let e = set_once(&mut d, entry("context", 6, "&ctx2")).err().expect("second value refused");
    assert_eq!(e.kind, AttrErrorKind::Duplicate);
    assert_eq!(e.span, 6);
    assert_eq!(d, Some("&ctx".to_string()));
}
