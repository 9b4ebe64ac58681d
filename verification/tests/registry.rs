use vesti::error::{VestiErr, VestiErrKind};
use vesti::location::{Location, Span};
use vesti::registry::Registry;

#[test]
fn new_registry_holds_nothing() {
    let registry = Registry::new();
    assert_eq!(registry.get("a"), None);
    assert_eq!(registry.get(""), None);
}

#[test]
fn registry_gives_back_what_was_put_in() {
    let mut registry = Registry::new();
    registry.insert("a".to_string(), "x = 1".to_string());
    registry.insert("b".to_string(), "y = 2".to_string());
    assert_eq!(registry.get("a"), Some(&"x = 1".to_string()));
    assert_eq!(registry.get("b"), Some(&"y = 2".to_string()));
    assert_eq!(registry.get("c"), None);
    assert_eq!(registry.get("A"), None);
}

#[test]
fn registry_keeps_the_last_source_under_a_label() {
    let mut registry = Registry::new();
    registry.insert("a".to_string(), "old".to_string());
    registry.insert("a".to_string(), "new".to_string());
    assert_eq!(registry.get("a"), Some(&"new".to_string()));
}

#[test]
fn cleared_registry_holds_nothing() {
    let mut registry = Registry::new();
    registry.insert("a".to_string(), "x".to_string());
    registry.clear();
    assert_eq!(registry.get("a"), None);
    registry.insert("b".to_string(), "y".to_string());
    assert_eq!(registry.get("b"), Some(&"y".to_string()));
}

#[test]
fn label_not_found_names_the_label_and_the_place() {
    let span = Span { start: Location { row: 3, column: 1 }, end: Location { row: 4, column: 2 } };
    let err = VestiErr::label_not_found("setup", span);
    assert_eq!(
        err,
        VestiErr {
            err_kind: VestiErrKind::LabelNotFound { label: "setup".to_string() },
            location: Some(span),
        }
    );
    assert_eq!(
        err.message(),
        "the label <setup> cannot be found. Notice that the label should be forward declared"
    );
}

#[test]
fn cloned_error_equals_the_error() {
    let span = Span { start: Location { row: 1, column: 2 }, end: Location { row: 3, column: 4 } };
    let errors = [
        VestiErr::label_not_found("a", span),
        VestiErr::illegal_trim_policy(),
        VestiErr {
            err_kind: VestiErrKind::PythonEvalErr { msg: "NameError: x".to_string() },
            location: Some(span),
        },
        VestiErr { err_kind: VestiErrKind::PythonEvalErr { msg: String::new() }, location: None },
    ];
    for err in &errors {
        assert_eq!(&err.clone(), err);
        assert_eq!(err.err_kind.clone(), err.err_kind);
    }
}
