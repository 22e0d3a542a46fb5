//! The emitted source text, piece by piece.

use syncthing_rs::companion::{CompanionType, FieldType, GeneratedField};
use syncthing_rs::emit::{
    emit_directive, emit_from_source, emit_operations, emit_piece, emit_pieces, emit_stored_type,
    emit_type, expand, Piece,
};
use syncthing_rs::literal::StringLiteral;

fn lit(value: &str) -> StringLiteral {
    StringLiteral { token: format!("\"{value}\""), value: value.to_string() }
}

fn plain(name: &str, ty: &str, rename: Option<&str>) -> GeneratedField {
    GeneratedField {
        name: name.to_string(),
        ty: FieldType::Plain(ty.to_string()),
        rename: rename.map(lit),
        omit_if_absent: false,
    }
}

fn optional(name: &str, ty: &str, rename: Option<&str>) -> GeneratedField {
    GeneratedField {
        name: name.to_string(),
        ty: FieldType::Optional(ty.to_string()),
        rename: rename.map(lit),
        omit_if_absent: true,
    }
}

fn folder() -> CompanionType {
    CompanionType {
        name: "NewFolder".to_string(),
        source: "Folder".to_string(),
        rename_all: None,
        fields: vec![
            plain("id", "String", None),
            optional("label", "String", Some("name")),
            plain("path", "String", Some("where")),
        ],
    }
}

fn piece(field: &GeneratedField, piece: Piece) -> String {
    let mut out = String::from("<");
    emit_piece(&mut out, field, piece);
    out
}

#[test]
fn directive_is_appended_with_its_token() {
    let mut out = String::from("x");
    emit_directive(&mut out, "rename", &lit("deviceID"));
    assert_eq!(out, "x#[serde(rename = \"deviceID\")]");
    emit_directive(&mut out, "rename_all", &StringLiteral {
        token: "r\"kebab-case\"".to_string(),
        value: "kebab-case".to_string(),
    });
    assert_eq!(out, "x#[serde(rename = \"deviceID\")]#[serde(rename_all = r\"kebab-case\")]");
}

#[test]
fn stored_type_wraps_optional_fields_only() {
    let mut out = String::new();
    emit_stored_type(&mut out, &FieldType::Plain("Vec<u8>".to_string()));
    out.push('|');
    emit_stored_type(&mut out, &FieldType::Optional("Vec<u8>".to_string()));
    assert_eq!(out, "Vec<u8>|std::option::Option<Vec<u8>>");
}

#[test]
fn declaration_of_a_field() {
    assert_eq!(piece(&plain("id", "String", None), Piece::Declaration), "<    id: String,\n");
    assert_eq!(
        piece(&plain("id", "String", Some("ID")), Piece::Declaration),
        "<    #[serde(rename = \"ID\")]\n    id: String,\n"
    );
    assert_eq!(
        piece(&optional("foo", "u32", None), Piece::Declaration),
        "<    #[serde(skip_serializing_if = \"Option::is_none\")]\n    foo: std::option::Option<u32>,\n"
    );
    assert_eq!(
        piece(&optional("foo", "u32", Some("bar")), Piece::Declaration),
        "<    #[serde(rename = \"bar\")]\n    #[serde(skip_serializing_if = \"Option::is_none\")]\n    foo: std::option::Option<u32>,\n"
    );
}

#[test]
fn parameter_of_a_field() {
    assert_eq!(piece(&plain("id", "String", None), Piece::Parameter), "<        id: String,\n");
    assert_eq!(piece(&optional("foo", "u32", None), Piece::Parameter), "<");
}

#[test]
fn initializer_of_a_field() {
    assert_eq!(piece(&plain("id", "String", None), Piece::Initializer), "<            id,\n");
    assert_eq!(
        piece(&optional("foo", "u32", None), Piece::Initializer),
        "<            foo: std::option::Option::None,\n"
    );
}

#[test]
fn accessors_of_a_field() {
    assert_eq!(
        piece(&plain("id", "String", None), Piece::Accessors),
        "<\n    pub fn id(mut self, id: String) -> Self {\n        self.id = id;\n        self\n    }\n\n    pub fn get_id(&self) -> &String {\n        &self.id\n    }\n"
    );
    assert_eq!(
        piece(&optional("foo", "u32", None), Piece::Accessors),
        "<\n    pub fn foo(mut self, foo: u32) -> Self {\n        self.foo = std::option::Option::Some(foo);\n        self\n    }\n\n    pub fn get_foo(&self) -> &std::option::Option<u32> {\n        &self.foo\n    }\n"
    );
}

#[test]
fn conversion_of_a_field() {
    assert_eq!(
        piece(&plain("id", "String", None), Piece::Conversion),
        "<            id: value.id,\n"
    );
    assert_eq!(
        piece(&optional("foo", "u32", None), Piece::Conversion),
        "<            foo: Some(value.foo),\n"
    );
}

#[test]
fn pieces_follow_the_field_order() {
    let mut out = String::from("fn new(\n");
    emit_pieces(&mut out, &folder().fields, Piece::Parameter);
    assert_eq!(out, "fn new(\n        id: String,\n        path: String,\n");
    let mut none = String::from("-");
    emit_pieces(&mut none, &[], Piece::Accessors);
    assert_eq!(none, "-");
}

#[test]
fn type_declaration() {
    assert_eq!(
        emit_type(&folder()),
        "#[derive(Clone, Debug, PartialEq, serde::Serialize)]\npub struct NewFolder {\n    id: String,\n    #[serde(rename = \"name\")]\n    #[serde(skip_serializing_if = \"Option::is_none\")]\n    label: std::option::Option<String>,\n    #[serde(rename = \"where\")]\n    path: String,\n}\n"
    );
    let mut cased = folder();
    cased.rename_all = Some(lit("camelCase"));
    cased.fields.clear();
    assert_eq!(
        emit_type(&cased),
        "#[derive(Clone, Debug, PartialEq, serde::Serialize)]\n#[serde(rename_all = \"camelCase\")]\npub struct NewFolder {\n}\n"
    );
}

#[test]
fn constructor_takes_the_required_fields_in_order() {
    let text = emit_operations(&folder());
    assert!(text.starts_with(
        "impl NewFolder {\n    pub fn new(\n        id: String,\n        path: String,\n    ) -> Self {\n        Self {\n            id,\n            label: std::option::Option::None,\n            path,\n        }\n    }\n"
    ));
    assert!(text.ends_with("    pub fn get_path(&self) -> &String {\n        &self.path\n    }\n}\n"));
    for name in ["id", "label", "path"] {
        assert_eq!(text.matches(&format!("    pub fn {name}(mut self, ")).count(), 1);
        assert_eq!(text.matches(&format!("    pub fn get_{name}(&self) -> ")).count(), 1);
    }
}

#[test]
fn conversion_from_the_source() {
    assert_eq!(
        emit_from_source(&folder()),
        "impl From<Folder> for NewFolder {\n    fn from(value: Folder) -> Self {\n        Self {\n            id: value.id,\n            label: Some(value.label),\n            path: value.path,\n        }\n    }\n}\n"
    );
}

#[test]
fn expansion_is_type_then_operations_then_conversion() {
    let companion = folder();
    assert_eq!(
        expand(&companion),
        format!(
            "{}\n{}\n{}",
            emit_type(&companion),
            emit_operations(&companion),
            emit_from_source(&companion)
        )
    );
    syn::parse_file(&expand(&companion)).expect("the expansion to read as Rust");
}
