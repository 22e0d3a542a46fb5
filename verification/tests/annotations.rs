//! Reading annotations: the required marker and the two directives.

use syncthing_rs::annotation::{
    find_directive, first_literal, get_rename, get_rename_all, is_required, offered, yielded,
};
use syncthing_rs::literal::StringLiteral;
use syncthing_rs::declaration::{Arguments, Attribute, Token};

fn bare(path: &str) -> Attribute {
    Attribute { path: path.to_string(), arguments: Arguments::Bare }
}

fn list(path: &str, tokens: Vec<Token>) -> Attribute {
    Attribute { path: path.to_string(), arguments: Arguments::List(tokens) }
}

fn ident(text: &str) -> Token {
    Token::Ident(text.to_string())
}

fn literal(text: &str) -> Token {
    Token::Literal(text.to_string())
}

fn assign(key: &str, value: &str) -> Vec<Token> {
    vec![ident(key), Token::Punct('='), literal(value)]
}

fn serde(key: &str, value: &str) -> Attribute {
    list("serde", assign(key, value))
}

#[test]
fn required_marker_is_found_among_other_annotations() {
    assert!(is_required(&[bare("doc"), bare("required")]));
    assert!(is_required(&[bare("required"), serde("rename", "\"a\"")]));
    assert!(!is_required(&[bare("doc"), serde("rename", "\"required\"")]));
    assert!(!is_required(&[]));
}

#[test]
fn required_marker_counts_whatever_follows_the_path() {
    assert!(is_required(&[list("required", vec![ident("always")])]));
    assert!(is_required(&[Attribute {
        path: "required".to_string(),
        arguments: Arguments::Assigned,
    }]));
}

#[test]
fn required_marker_is_a_single_plain_identifier() {
    assert!(!is_required(&[bare("serde::required")]));
    assert!(!is_required(&[bare("::required")]));
    assert!(!is_required(&[bare("r#required")]));
    assert!(!is_required(&[bare("Required")]));
}

#[test]
fn offered_literal_is_the_third_token_of_a_serde_list() {
    assert_eq!(offered(&serde("rename", "\"bar\""), "rename"), Some("\"bar\"".to_string()));
    assert_eq!(offered(&serde("rename_all", "\"camelCase\""), "rename_all"), Some("\"camelCase\"".to_string()));
    assert_eq!(offered(&serde("rename", "12"), "rename"), Some("12".to_string()));
}

#[test]
fn offered_literal_needs_the_key_first() {
    assert_eq!(offered(&serde("rename", "\"bar\""), "rename_all"), None);
    assert_eq!(offered(&serde("rename_all", "\"bar\""), "rename"), None);
    let late = list(
        "serde",
        vec![ident("default"), Token::Punct(','), ident("rename"), Token::Punct('='), literal("\"bar\"")],
    );
    assert_eq!(offered(&late, "rename"), None);
    let as_literal = list("serde", vec![literal("rename"), Token::Punct('='), literal("\"bar\"")]);
    assert_eq!(offered(&as_literal, "rename"), None);
}

#[test]
fn offered_literal_needs_a_serde_list_of_three_tokens() {
    assert_eq!(offered(&list("other", assign("rename", "\"bar\"")), "rename"), None);
    assert_eq!(offered(&bare("serde"), "rename"), None);
    assert_eq!(
        offered(&Attribute { path: "serde".to_string(), arguments: Arguments::Assigned }, "rename"),
        None
    );
    assert_eq!(offered(&list("serde", vec![ident("rename"), Token::Punct('=')]), "rename"), None);
    assert_eq!(offered(&list("serde", vec![]), "rename"), None);
    let group = list("serde", vec![ident("rename"), Token::Group("(serialize = \"a\")".to_string())]);
    assert_eq!(offered(&group, "rename"), None);
    let third_is_ident = list("serde", vec![ident("rename"), Token::Punct('='), ident("bar")]);
    assert_eq!(offered(&third_is_ident, "rename"), None);
}

#[test]
fn offered_literal_ignores_the_second_token_and_the_rest() {
    let colon = list("serde", vec![ident("rename"), Token::Punct(':'), literal("\"bar\"")]);
    assert_eq!(offered(&colon, "rename"), Some("\"bar\"".to_string()));
    let more = list(
        "serde",
        vec![ident("rename"), Token::Punct('='), literal("\"bar\""), Token::Punct(','), ident("default")],
    );
    assert_eq!(offered(&more, "rename"), Some("\"bar\"".to_string()));
}

#[test]
fn rename_carries_token_and_value() {
    let found = get_rename(&[serde("rename", "\"deviceID\"")]).expect("a rename");
    assert_eq!(found.token, "\"deviceID\"");
    assert_eq!(found.value, "deviceID");
}

#[test]
fn rename_resolves_escapes_and_raw_strings() {
    let escaped = get_rename(&[serde("rename", "\"a\\tb\\u{e9}\"")]).expect("a rename");
    assert_eq!(escaped.token, "\"a\\tb\\u{e9}\"");
    assert_eq!(escaped.value, "a\tb\u{e9}");
    let raw = get_rename(&[serde("rename", "r#\"a\"b\"#")]).expect("a rename");
    assert_eq!(raw.token, "r#\"a\"b\"#");
    assert_eq!(raw.value, "a\"b");
}

#[test]
fn only_the_first_rename_is_carried() {
    let found = get_rename(&[
        bare("required"),
        serde("rename", "\"first\""),
        serde("rename", "\"second\""),
    ])
    .expect("a rename");
    assert_eq!(found.value, "first");
}

#[test]
fn a_literal_that_is_no_string_is_skipped() {
    assert!(get_rename(&[serde("rename", "12")]).is_none());
    assert!(get_rename(&[serde("rename", "'a'")]).is_none());
    assert!(get_rename(&[serde("rename", "b\"bar\"")]).is_none());
    assert!(get_rename(&[serde("rename", "\"unterminated")]).is_none());
    assert!(get_rename(&[serde("rename", "\"bar\" \"baz\"")]).is_none());
    assert!(get_rename(&[serde("rename", "")]).is_none());
    let found = get_rename(&[serde("rename", "12"), serde("rename", "\"later\"")]).expect("a rename");
    assert_eq!(found.value, "later");
}

#[test]
fn rename_and_casing_policy_do_not_mix() {
    let attrs = [serde("rename_all", "\"camelCase\""), serde("rename", "\"bar\"")];
    assert_eq!(get_rename(&attrs).expect("a rename").value, "bar");
    assert_eq!(get_rename_all(&attrs).expect("a policy").value, "camelCase");
    assert!(get_rename(&[serde("rename_all", "\"camelCase\"")]).is_none());
    assert!(get_rename_all(&[serde("rename", "\"bar\"")]).is_none());
    assert!(get_rename(&[]).is_none());
    assert!(get_rename_all(&[]).is_none());
}

#[test]
fn any_directive_can_be_looked_for() {
    let attrs = [serde("alias", "\"other\"")];
    assert_eq!(find_directive(&attrs, "alias").expect("a directive").value, "other");
    assert!(find_directive(&attrs, "rename").is_none());
}

#[test]
fn an_annotation_yields_what_its_literal_reads_as() {
    let found = yielded(&serde("rename", "\"bar\""), "rename").expect("a directive");
    assert_eq!((found.token.as_str(), found.value.as_str()), ("\"bar\"", "bar"));
    assert!(yielded(&serde("rename", "bar"), "rename").is_none());
    assert!(yielded(&serde("rename", "\"bar\""), "rename_all").is_none());
    assert!(yielded(&bare("serde"), "rename").is_none());
}

#[test]
fn the_first_literal_that_is_present_is_chosen() {
    let lit = |value: &str| {
        Some(StringLiteral { token: format!("\"{value}\""), value: value.to_string() })
    };
    assert!(first_literal(&[]).is_none());
    assert!(first_literal(&[None, None]).is_none());
    assert_eq!(first_literal(&[lit("a")]).map(|l| l.value), Some("a".to_string()));
    assert_eq!(first_literal(&[None, lit("b"), lit("c")]).map(|l| l.token), Some("\"b\"".to_string()));
    assert_eq!(first_literal(&[lit("a"), None, lit("c")]).map(|l| l.value), Some("a".to_string()));
    assert_eq!(first_literal(&[None, None, lit("c")]).map(|l| l.value), Some("c".to_string()));
}
