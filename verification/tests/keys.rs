//! Wire keys: rename first, then the casing policy, then the name.

use syncthing_rs::companion::{CompanionType, FieldType, GeneratedField};
use syncthing_rs::keys::{ascii_initial, strip_raw};
use syncthing_rs::literal::StringLiteral;

fn lit(value: &str) -> StringLiteral {
    StringLiteral { token: format!("\"{value}\""), value: value.to_string() }
}

fn key(policy: Option<&str>, name: &str, rename: Option<&str>) -> Option<String> {
    let companion = CompanionType {
        name: "NewDevice".to_string(),
        source: "Device".to_string(),
        rename_all: policy.map(lit),
        fields: vec![GeneratedField {
            name: name.to_string(),
            ty: FieldType::Optional("u32".to_string()),
            rename: rename.map(lit),
            omit_if_absent: true,
        }],
    };
    companion.wire_key(0)
}

fn some(text: &str) -> Option<String> {
    Some(text.to_string())
}

#[test]
fn the_name_is_the_key_without_directives() {
    assert_eq!(key(None, "foo_bar", None), some("foo_bar"));
    assert_eq!(key(None, "", None), some(""));
    assert_eq!(key(None, "_", None), some("_"));
}

#[test]
fn a_raw_identifier_loses_its_mark() {
    assert_eq!(key(None, "r#type", None), some("type"));
    assert_eq!(key(None, "r#r#type", None), some("type"));
    assert_eq!(key(None, "r#", None), some(""));
    assert_eq!(key(None, "r", None), some("r"));
    assert_eq!(key(None, "ar#b", None), some("ar#b"));
    assert_eq!(key(Some("UPPERCASE"), "r#type", None), some("TYPE"));
    assert_eq!(strip_raw("r#match"), "match");
    assert_eq!(strip_raw("match"), "match");
    assert_eq!(strip_raw("\u{e9}#"), "\u{e9}#");
}

#[test]
fn the_casing_policy_is_applied_to_the_name() {
    assert_eq!(key(Some("camelCase"), "foo_bar", None), some("fooBar"));
    assert_eq!(key(Some("camelCase"), "max_send_kbps", None), some("maxSendKbps"));
    assert_eq!(key(Some("PascalCase"), "foo_bar", None), some("FooBar"));
    assert_eq!(key(Some("lowercase"), "foo_bar", None), some("foo_bar"));
    assert_eq!(key(Some("UPPERCASE"), "foo_bar", None), some("FOO_BAR"));
    assert_eq!(key(Some("snake_case"), "foo_bar", None), some("foo_bar"));
    assert_eq!(key(Some("SCREAMING_SNAKE_CASE"), "foo_bar", None), some("FOO_BAR"));
    assert_eq!(key(Some("kebab-case"), "foo_bar", None), some("foo-bar"));
    assert_eq!(key(Some("SCREAMING-KEBAB-CASE"), "foo_bar", None), some("FOO-BAR"));
}

#[test]
fn a_rename_wins_over_the_casing_policy() {
    assert_eq!(key(Some("camelCase"), "device_id", Some("deviceID")), some("deviceID"));
    assert_eq!(key(Some("no policy at all"), "device_id", Some("deviceID")), some("deviceID"));
    assert_eq!(key(None, "device_id", Some("")), some(""));
    assert_eq!(key(Some("camelCase"), "_", Some("x")), some("x"));
}

#[test]
fn an_unknown_policy_gives_no_key() {
    assert_eq!(key(Some("camel-case"), "foo_bar", None), None);
    assert_eq!(key(Some("CamelCase"), "foo_bar", None), None);
    assert_eq!(key(Some(""), "foo_bar", None), None);
}

#[test]
fn camel_case_needs_an_ascii_initial() {
    assert_eq!(key(Some("camelCase"), "", None), None);
    assert_eq!(key(Some("camelCase"), "_", None), None);
    assert_eq!(key(Some("camelCase"), "___", None), None);
    assert_eq!(key(Some("camelCase"), "\u{e9}t\u{e9}", None), None);
    assert_eq!(key(Some("camelCase"), "_\u{e9}", None), None);
    assert_eq!(key(Some("camelCase"), "_a", None), some("a"));
    assert_eq!(key(Some("camelCase"), "__foo__bar", None), some("fooBar"));
    assert_eq!(key(Some("camelCase"), "a\u{e9}", None), some("a\u{e9}"));
    assert_eq!(key(Some("PascalCase"), "\u{e9}t\u{e9}_x", None), some("\u{e9}t\u{e9}X"));
    assert_eq!(key(Some("PascalCase"), "_", None), some(""));
}

#[test]
fn ascii_initial_is_the_first_character_other_than_an_underscore() {
    assert!(ascii_initial("a"));
    assert!(ascii_initial("__a\u{e9}"));
    assert!(ascii_initial("\u{7f}"));
    assert!(!ascii_initial(""));
    assert!(!ascii_initial("__"));
    assert!(!ascii_initial("\u{80}"));
    assert!(!ascii_initial("_\u{e9}a"));
}

#[test]
fn a_type_has_keys_for_its_own_fields_only() {
    let companion = CompanionType {
        name: "NewDevice".to_string(),
        source: "Device".to_string(),
        rename_all: None,
        fields: vec![],
    };
    assert_eq!(companion.wire_key(0), None);
    assert_eq!(key(None, "foo", None), some("foo"));
}
