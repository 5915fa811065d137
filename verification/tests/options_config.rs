use aipack::config::{AgentOptions, ConfigError, ModelAliases};
use aipack::value::{DataValue, NumVal};

fn obj(fields: Vec<(&str, DataValue)>) -> DataValue {
    DataValue::Obj(
        fields
            .into_iter()
            .map(|(k, v)| (k.to_string(), v))
            .collect(),
    )
}

fn s(text: &str) -> DataValue {
    DataValue::Str(text.to_string())
}

fn num(mantissa: i64, scale: u32) -> DataValue {
    DataValue::Num(NumVal { mantissa, scale })
}

#[test]
fn test_options_from_value_with_aliases() {
    let doc = obj(vec![
        ("model", s("gpt-4o-mini")),
        ("temperature", num(3, 1)),
        ("input_concurrency", num(6, 0)),
        ("model_aliases", obj(vec![("small", s("gemini-2.0-flash-001"))])),
    ]);
    let options = AgentOptions::from_options_value(&doc).expect("options should parse");
    assert_eq!(options.model().map(|m| m.as_str()), Some("gpt-4o-mini"));
    assert_eq!(options.temperature(), Some(NumVal { mantissa: 3, scale: 1 }));
    assert_eq!(options.input_concurrency(), Some(6));
    let aliases = options.model_aliases.as_ref().expect("Should have an alias for small");
    assert_eq!(aliases.get("small").map(|m| m.as_str()), Some("gemini-2.0-flash-001"));
}

#[test]
fn test_options_resolve_model_through_alias() {
    let doc = obj(vec![
        ("model", s("small")),
        ("model_aliases", obj(vec![("small", s("flash-001"))])),
    ]);
    let options = AgentOptions::from_options_value(&doc).expect("options should parse");
    assert_eq!(options.resolve_model().map(|m| m.as_str()), Some("flash-001"));
    // a name without an alias resolves to itself
    let doc = obj(vec![
        ("model", s("non-existent")),
        ("model_aliases", obj(vec![("small", s("flash-001"))])),
    ]);
    let options = AgentOptions::from_options_value(&doc).expect("options should parse");
    assert_eq!(options.resolve_model().map(|m| m.as_str()), Some("non-existent"));
}

#[test]
fn test_options_bad_field_is_rejected() {
    let doc = obj(vec![("model", num(1, 0))]);
    let err = AgentOptions::from_options_value(&doc).expect_err("a numeric model is rejected");
    assert!(matches!(err, ConfigError::BadOptions));
}

#[test]
fn test_config_value_sections() {
    // the options live under `options`
    let config = obj(vec![("options", obj(vec![("model", s("gpt-4o-mini"))]))]);
    let options = AgentOptions::from_config_value(&config).expect("config should parse");
    assert_eq!(options.model().map(|m| m.as_str()), Some("gpt-4o-mini"));

    // the older `default_options` key still works
    let config = obj(vec![("default_options", obj(vec![("model", s("gpt-4o"))]))]);
    let options = AgentOptions::from_config_value(&config).expect("config should parse");
    assert_eq!(options.model().map(|m| m.as_str()), Some("gpt-4o"));

    // no section: the defaults
    let config = obj(vec![("other", s("x"))]);
    let options = AgentOptions::from_config_value(&config).expect("config should parse");
    assert!(options.model().is_none());

    // the dashed key is rejected outright
    let config = obj(vec![("default-options", obj(vec![]))]);
    let err = AgentOptions::from_config_value(&config).expect_err("dashed key must be rejected");
    assert!(matches!(err, ConfigError::LegacyDashKey));
}

#[test]
fn test_options_merge_new_keeps_base() {
    let base_doc = obj(vec![
        ("model", s("gpt-4o-mini")),
        ("temperature", num(0, 0)),
        ("model_aliases", obj(vec![("small", s("flash-001"))])),
    ]);
    let base = AgentOptions::from_options_value(&base_doc).expect("base should parse");

    let ov_doc = obj(vec![
        ("model", s("deepseek-chat")),
        ("model_aliases", obj(vec![("small", s("mini-2")), ("big", s("grok-4"))])),
    ]);
    let ov = AgentOptions::from_options_value(&ov_doc).expect("override should parse");

    let merged = base.merge_new(ov).expect("merge should pass");
    // the override wins where set, the base remains where not
    assert_eq!(merged.model().map(|m| m.as_str()), Some("deepseek-chat"));
    assert_eq!(merged.temperature(), Some(NumVal { mantissa: 0, scale: 0 }));
    let aliases = merged.model_aliases.as_ref().expect("merged aliases");
    assert_eq!(aliases.get("small").map(|m| m.as_str()), Some("mini-2"));
    assert_eq!(aliases.get("big").map(|m| m.as_str()), Some("grok-4"));

    // and the base value itself is untouched
    assert_eq!(base.model().map(|m| m.as_str()), Some("gpt-4o-mini"));
    let base_aliases = base.model_aliases.as_ref().expect("base aliases");
    assert_eq!(base_aliases.get("small").map(|m| m.as_str()), Some("flash-001"));
}

#[test]
fn test_aliases_merge_binding_wise() {
    let mut base = ModelAliases::new();
    base.set("small".to_string(), "flash-001".to_string());
    base.set("big".to_string(), "gpt-4o".to_string());

    let mut ov = ModelAliases::new();
    ov.set("small".to_string(), "mini-2".to_string());
    ov.set("huge".to_string(), "opus-3".to_string());

    // merge_new leaves the base readable and merges binding-wise
    let merged = base.merge_new(Some(ov));
    assert_eq!(merged.get("small").map(|m| m.as_str()), Some("mini-2"));
    assert_eq!(merged.get("big").map(|m| m.as_str()), Some("gpt-4o"));
    assert_eq!(merged.get("huge").map(|m| m.as_str()), Some("opus-3"));
    assert_eq!(base.get("small").map(|m| m.as_str()), Some("flash-001"));

    // merge with no override is the identity
    let merged = base.merge(None);
    assert_eq!(merged.get("small").map(|m| m.as_str()), Some("flash-001"));
    assert_eq!(merged.get("big").map(|m| m.as_str()), Some("gpt-4o"));
}

#[test]
fn test_options_to_value_fields() {
    let doc = obj(vec![
        ("model", s("small")),
        ("model_aliases", obj(vec![("small", s("flash-001"))])),
    ]);
    let options = AgentOptions::from_options_value(&doc).expect("options should parse");
    let value = options.to_value();
    assert_eq!(value.get("model"), Some(&s("small")));
    assert_eq!(value.get("resolved_model"), Some(&s("flash-001")));
    assert_eq!(value.get("temperature"), Some(&DataValue::Null));
}
