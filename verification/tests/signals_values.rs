use aipack::signal::{classify, Classified};
use aipack::value::DataValue;

fn obj(fields: Vec<(&str, DataValue)>) -> DataValue {
    DataValue::Obj(
        fields
            .into_iter()
            .map(|(k, v)| (k.to_string(), v))
            .collect(),
    )
}

fn s(text: &str) -> DataValue {
    DataValue::Str(text.to_string())
}

#[test]
fn test_classify_plain_value_passes_through() {
    let value = obj(vec![("answer", s("forty-two"))]);
    let expected = obj(vec![("answer", s("forty-two"))]);
    match classify(value).expect("plain data classifies") {
        Classified::Original(v) => assert_eq!(v, expected),
        other => panic!("expected the original value, got {other:?}"),
    }
}

#[test]
fn test_classify_skip_with_reason() {
    let value = obj(vec![(
        "_aipack_",
        obj(vec![
            ("kind", s("Skip")),
            ("data", obj(vec![("reason", s("Some reason"))])),
        ]),
    )]);
    match classify(value).expect("a skip marker classifies") {
        Classified::Skip { reason } => assert_eq!(reason.as_deref(), Some("Some reason")),
        other => panic!("expected a skip, got {other:?}"),
    }
}

#[test]
fn test_classify_skip_without_reason() {
    let value = obj(vec![("_aipack_", obj(vec![("kind", s("Skip"))]))]);
    match classify(value).expect("a skip marker classifies") {
        Classified::Skip { reason } => assert!(reason.is_none()),
        other => panic!("expected a skip, got {other:?}"),
    }
}

#[test]
fn test_classify_data_response_fields() {
    let value = obj(vec![(
        "_aipack_",
        obj(vec![
            ("kind", s("DataResponse")),
            (
                "data",
                obj(vec![("input", s("new input")), ("data", s("hello"))]),
            ),
        ]),
    )]);
    match classify(value).expect("a data-response marker classifies") {
        Classified::DataResponse { input, data, options } => {
            assert_eq!(input, Some(s("new input")));
            assert_eq!(data, Some(s("hello")));
            assert!(options.is_none());
        }
        other => panic!("expected a data response, got {other:?}"),
    }
}

#[test]
fn test_classify_other_signal_kind() {
    let value = obj(vec![("_aipack_", obj(vec![("kind", s("BeforeAllResponse"))]))]);
    match classify(value).expect("an unknown marker still classifies") {
        Classified::Other(name) => assert_eq!(name, "BeforeAllResponse"),
        other => panic!("expected an other-signal, got {other:?}"),
    }
}

#[test]
fn test_classify_malformed_marker_is_error() {
    // marker present but not an object
    let value = obj(vec![("_aipack_", s("Skip"))]);
    assert!(classify(value).is_err());
    // marker without a kind
    let value = obj(vec![("_aipack_", obj(vec![("data", s("x"))]))]);
    assert!(classify(value).is_err());
}

#[test]
fn test_value_get_first_binding_wins() {
    let value = DataValue::Obj(vec![
        ("k".to_string(), s("first")),
        ("k".to_string(), s("second")),
    ]);
    assert_eq!(value.get("k"), Some(&s("first")));
    assert_eq!(value.get("missing"), None);
}

#[test]
fn test_value_deep_clone_equal() {
    let value = obj(vec![
        ("list", DataValue::List(vec![s("a"), DataValue::Bool(true), DataValue::Null])),
        ("nested", obj(vec![("x", s("y"))])),
    ]);
    let copy = value.deep_clone();
    assert_eq!(copy, value);
}
