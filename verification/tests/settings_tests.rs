use nanvr_core::settings::{unblock_nanvr_driver_within_vrsettings, SettingsError};
use serde_json::Value;

fn parse(text: &str) -> Value {
    serde_json::from_str(text).unwrap()
}

#[test]
fn blocked_driver_is_unblocked_and_nothing_else_changes() {
    let input = r#"{
        "driver_nanvr_server": {
            "blocked_by_safe_mode": true,
            "priority": 3
        },
        "steamvr": { "requireHmd": false },
        "volume": 0.5
    }"#;
    let output = unblock_nanvr_driver_within_vrsettings(input).unwrap();
    let doc = parse(&output);
    assert_eq!(
        doc["driver_nanvr_server"]["blocked_by_safe_mode"],
        Value::Bool(false)
    );
    // The sibling field inside the driver section is untouched.
    assert_eq!(doc["driver_nanvr_server"]["priority"], parse("3"));
    // The unrelated top-level fields are untouched.
    assert_eq!(doc["steamvr"], parse(r#"{ "requireHmd": false }"#));
    assert_eq!(doc["volume"], parse("0.5"));
    // And nothing else appeared.
    assert_eq!(doc.as_object().unwrap().len(), 3);
}

#[test]
fn missing_driver_key_is_created_with_the_flag_cleared() {
    let input = r#"{ "steamvr": { "requireHmd": false } }"#;
    let output = unblock_nanvr_driver_within_vrsettings(input).unwrap();
    let doc = parse(&output);
    assert_eq!(
        doc["driver_nanvr_server"],
        parse(r#"{ "blocked_by_safe_mode": false }"#)
    );
    assert_eq!(doc["steamvr"], parse(r#"{ "requireHmd": false }"#));
}

#[test]
fn already_unblocked_document_comes_back_unchanged() {
    let input = r#"{
        "driver_nanvr_server": { "blocked_by_safe_mode": false, "priority": 1 },
        "other": [1, 2, 3]
    }"#;
    let output = unblock_nanvr_driver_within_vrsettings(input).unwrap();
    assert_eq!(parse(&output), parse(input));
}

#[test]
fn driver_section_without_the_flag_is_untouched() {
    let input = r#"{ "driver_nanvr_server": { "priority": 1 } }"#;
    let output = unblock_nanvr_driver_within_vrsettings(input).unwrap();
    assert_eq!(parse(&output), parse(input));
}

#[test]
fn non_boolean_flag_is_untouched() {
    let input = r#"{ "driver_nanvr_server": { "blocked_by_safe_mode": "yes" } }"#;
    let output = unblock_nanvr_driver_within_vrsettings(input).unwrap();
    assert_eq!(parse(&output), parse(input));
}

#[test]
fn non_object_driver_entry_is_untouched() {
    let input = r#"{ "driver_nanvr_server": 7, "keep": true }"#;
    let output = unblock_nanvr_driver_within_vrsettings(input).unwrap();
    assert_eq!(parse(&output), parse(input));
}

#[test]
fn invalid_json_is_reported_corrupt() {
    let err = unblock_nanvr_driver_within_vrsettings("not json at all").unwrap_err();
    assert_eq!(err, SettingsError::SettingsCorrupt);
}

#[test]
fn non_object_top_level_is_reported_corrupt() {
    let err = unblock_nanvr_driver_within_vrsettings("[1, 2, 3]").unwrap_err();
    assert_eq!(err, SettingsError::SettingsCorrupt);
}

#[test]
fn unblocking_is_idempotent() {
    let input = r#"{ "driver_nanvr_server": { "blocked_by_safe_mode": true } }"#;
    let once = unblock_nanvr_driver_within_vrsettings(input).unwrap();
    let twice = unblock_nanvr_driver_within_vrsettings(&once).unwrap();
    assert_eq!(once, twice);
}
