use tracing_otel_http::span::{Field, FieldValue, Level, Span};

fn sample() -> Span {
    Span::new(
        "sample",
        Level::Warn,
        vec![
            Field { name: "a".to_string(), value: FieldValue::Empty },
            Field { name: "b".to_string(), value: FieldValue::Unsigned(1) },
            Field { name: "a".to_string(), value: FieldValue::Text("second".to_string()) },
        ],
        None,
    )
}

#[test]
fn new_span_keeps_what_it_is_given() {
    let span = sample();
    assert_eq!(span.name(), "sample");
    assert_eq!(span.level(), Level::Warn);
    assert_eq!(span.fields().len(), 3);
    assert!(span.parent().is_none());
}

#[test]
fn field_finds_first_entry_by_name() {
    let span = sample();
    assert_eq!(span.field("a"), Some(&FieldValue::Empty));
    assert_eq!(span.field("b"), Some(&FieldValue::Unsigned(1)));
    assert_eq!(span.field("c"), None);
    assert_eq!(span.field(""), None);
    assert_eq!(span.field("A"), None);
}

#[test]
fn record_sets_the_first_entry_only() {
    let mut span = sample();
    span.record("a", FieldValue::Unsigned(7));
    assert_eq!(span.fields()[0].value, FieldValue::Unsigned(7));
    assert_eq!(span.fields()[0].name, "a");
    assert_eq!(span.fields()[1].value, FieldValue::Unsigned(1));
    assert_eq!(span.fields()[2].value, FieldValue::Text("second".to_string()));
    assert_eq!(span.fields().len(), 3);
}

#[test]
fn record_on_undeclared_field_changes_nothing() {
    let mut span = sample();
    span.record("c", FieldValue::Unsigned(7));
    assert_eq!(span.fields(), sample().fields());
    assert_eq!(span.field("c"), None);
}

#[test]
fn record_overwrites_an_earlier_value() {
    let mut span = sample();
    span.record("b", FieldValue::Text("x".to_string()));
    span.record("b", FieldValue::Debug("y".to_string()));
    assert_eq!(span.field("b"), Some(&FieldValue::Debug("y".to_string())));
}
