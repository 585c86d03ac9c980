use poolkit::context::{get_value, new, with_value, wrap, Context};

#[test]
fn empty_chain_has_no_values() {
    let c: Context<u64> = new();
    assert!(get_value(&c, "anything".to_string()).is_none());
}

#[test]
fn with_value_then_get_value_round_trip() {
    let c = new();
    let c = with_value(c, "k".to_string(), 7u64);
    assert_eq!(get_value(&c, "k".to_string()), Some(&7u64));
    assert_eq!(get_value::<u64>(&c, "other".to_string()), None);
}

#[test]
fn inner_value_shadows_outer_value() {
    let c = new();
    let c = with_value(c, "k".to_string(), 1u64);
    let c = with_value(c, "k".to_string(), 2u64);
    assert_eq!(get_value(&c, "k".to_string()), Some(&2u64));
}

#[test]
fn other_keys_are_preserved() {
    let c = new();
    let c = with_value(c, "a".to_string(), 1u64);
    let c = with_value(c, "b".to_string(), 2u64);
    assert_eq!(get_value(&c, "a".to_string()), Some(&1u64));
    assert_eq!(get_value(&c, "b".to_string()), Some(&2u64));
}

#[test]
fn wrap_fills_in_trace_locale_and_lang() {
    let c = wrap(new());
    let trace = get_value::<String>(&c, "trace_id".to_string()).unwrap();
    assert_eq!(trace.len(), 36);
    assert_eq!(
        get_value::<String>(&c, "locale".to_string()),
        Some(&"zh".to_string())
    );
    assert_eq!(
        get_value::<String>(&c, "lang".to_string()),
        Some(&"ZH-CN".to_string())
    );
}

#[test]
fn wrap_keeps_chain_with_existing_trace_id() {
    let c = new();
    let c = with_value(c, "trace_id".to_string(), "abc".to_string());
    let c = wrap(c);
    assert_eq!(
        get_value::<String>(&c, "trace_id".to_string()),
        Some(&"abc".to_string())
    );
    assert_eq!(get_value::<String>(&c, "locale".to_string()), None);
    assert_eq!(get_value::<String>(&c, "lang".to_string()), None);
}

#[test]
fn wrap_replaces_empty_trace_id() {
    let c = new();
    let c = with_value(c, "trace_id".to_string(), String::new());
    let c = wrap(c);
    let trace = get_value::<String>(&c, "trace_id".to_string()).unwrap();
    assert_eq!(trace.len(), 36);
}

#[test]
fn wrap_preserves_unrelated_keys() {
    let c = new();
    let c = with_value(c, "user".to_string(), "u1".to_string());
    let c = wrap(c);
    assert_eq!(
        get_value::<String>(&c, "user".to_string()),
        Some(&"u1".to_string())
    );
}
