//! Values of a companion type: construction, setting, reading, conversion,
//! and the documents they serialize to.

use syncthing_rs::companion::{CompanionType, FieldType, GeneratedField};
use syncthing_rs::keys::Entry;
use syncthing_rs::literal::StringLiteral;
use syncthing_rs::record::{Record, Slot};

fn lit(value: &str) -> StringLiteral {
    StringLiteral { token: format!("\"{value}\""), value: value.to_string() }
}

fn plain(name: &str, rename: Option<&str>) -> GeneratedField {
    GeneratedField {
        name: name.to_string(),
        ty: FieldType::Plain("String".to_string()),
        rename: rename.map(lit),
        omit_if_absent: false,
    }
}

fn optional(name: &str, rename: Option<&str>) -> GeneratedField {
    GeneratedField {
        name: name.to_string(),
        ty: FieldType::Optional("String".to_string()),
        rename: rename.map(lit),
        omit_if_absent: true,
    }
}

fn companion(policy: Option<&str>, fields: Vec<GeneratedField>) -> CompanionType {
    CompanionType {
        name: "NewFolder".to_string(),
        source: "Folder".to_string(),
        rename_all: policy.map(lit),
        fields,
    }
}

/// label, id (required), path (required), marker_name
fn folder() -> CompanionType {
    companion(
        None,
        vec![optional("label", None), plain("id", None), plain("path", None), optional("marker_name", None)],
    )
}

fn s(text: &str) -> String {
    text.to_string()
}

fn slots(record: &Record<String>) -> Vec<(bool, Option<&str>)> {
    record.slots.iter().map(|slot| (slot.is_optional(), slot.value().map(|v| v.as_str()))).collect()
}

fn keys(entries: &[Entry]) -> Vec<(&str, usize)> {
    entries.iter().map(|entry| (entry.key.as_str(), entry.field)).collect()
}

#[test]
fn constructor_takes_one_argument_per_required_field() {
    let folder = folder();
    assert_eq!(folder.parameter_count(), 2);
    assert!(folder.construct(vec![s("a")]).is_none());
    assert!(folder.construct(vec![s("a"), s("b"), s("c")]).is_none());
    assert!(folder.construct(Vec::<String>::new()).is_none());
    let empty = companion(None, vec![]);
    assert_eq!(empty.parameter_count(), 0);
    assert_eq!(empty.construct(Vec::<String>::new()).map(|r| r.slots.len()), Some(0));
    assert!(empty.construct(vec![s("a")]).is_none());
}

#[test]
fn constructor_fills_required_fields_in_order_and_nothing_else() {
    let record = folder().construct(vec![s("the-id"), s("/tmp")]).expect("a value");
    assert_eq!(
        slots(&record),
        [(true, None), (false, Some("the-id")), (false, Some("/tmp")), (true, None)]
    );
}

#[test]
fn setter_replaces_a_required_value_and_fills_an_optional_one() {
    let record = folder().construct(vec![s("the-id"), s("/tmp")]).expect("a value");
    let record = record.set(1, s("other")).expect("a field");
    let record = record.set(3, s(".stfolder")).expect("a field");
    assert!(matches!(record.get(1), Some(Slot::Required(v)) if v == "other"));
    assert!(matches!(record.get(3), Some(Slot::Optional(Some(v))) if v == ".stfolder"));
    assert_eq!(
        slots(&record),
        [(true, None), (false, Some("other")), (false, Some("/tmp")), (true, Some(".stfolder"))]
    );
    let record = record.set(3, s("again")).expect("a field");
    assert!(matches!(record.get(3), Some(Slot::Optional(Some(v))) if v == "again"));
}

#[test]
fn setter_and_accessor_know_only_the_fields_of_the_type() {
    let record = folder().construct(vec![s("the-id"), s("/tmp")]).expect("a value");
    assert!(record.get(4).is_none());
    assert!(record.get(usize::MAX).is_none());
    assert!(record.set(4, s("x")).is_none());
}

#[test]
fn setting_twice_is_setting_once() {
    for index in 0..4 {
        let once = folder()
            .construct(vec![s("the-id"), s("/tmp")])
            .and_then(|r| r.set(index, s("v")))
            .expect("a value");
        let twice = folder()
            .construct(vec![s("the-id"), s("/tmp")])
            .and_then(|r| r.set(index, s("v")))
            .and_then(|r| r.set(index, s("v")))
            .expect("a value");
        assert_eq!(slots(&once), slots(&twice));
        let folder = folder();
        assert_eq!(
            keys(&once.document(&folder).expect("a document")),
            keys(&twice.document(&folder).expect("a document"))
        );
    }
}

#[test]
fn conversion_holds_every_source_value() {
    let source = vec![s("Label"), s("the-id"), s("/tmp"), s(".stfolder")];
    let record = folder().from_source(source.clone()).expect("a value");
    for (index, value) in source.iter().enumerate() {
        assert_eq!(record.get(index).and_then(|slot| slot.value()), Some(value));
    }
    assert_eq!(
        slots(&record),
        [
            (true, Some("Label")),
            (false, Some("the-id")),
            (false, Some("/tmp")),
            (true, Some(".stfolder"))
        ]
    );
}

#[test]
fn conversion_takes_one_value_per_field() {
    assert!(folder().from_source(vec![s("a"), s("b"), s("c")]).is_none());
    assert!(folder().from_source(vec![s("a"), s("b"), s("c"), s("d"), s("e")]).is_none());
    assert!(folder().from_source(Vec::<String>::new()).is_none());
}

#[test]
fn field_is_found_by_the_name_of_its_setter() {
    let folder = folder();
    assert_eq!(folder.field_index("label"), Some(0));
    assert_eq!(folder.field_index("path"), Some(2));
    assert_eq!(folder.field_index("marker_name"), Some(3));
    assert_eq!(folder.field_index("marker"), None);
    assert_eq!(folder.field_index(""), None);
    let twice = companion(None, vec![optional("a", None), plain("b", None), plain("a", None)]);
    assert_eq!(twice.field_index("a"), Some(0));
}

#[test]
fn fresh_value_serializes_the_required_keys_only() {
    let folder = folder();
    let record = folder.construct(vec![s("the-id"), s("/tmp")]).expect("a value");
    let document = record.document(&folder).expect("a document");
    assert_eq!(keys(&document), [("id", 1), ("path", 2)]);
}

#[test]
fn a_field_appears_once_it_is_set() {
    let folder = folder();
    let record = folder
        .construct(vec![s("the-id"), s("/tmp")])
        .and_then(|r| r.set(3, s(".stfolder")))
        .expect("a value");
    let document = record.document(&folder).expect("a document");
    assert_eq!(keys(&document), [("id", 1), ("path", 2), ("marker_name", 3)]);
    let full = folder.from_source(vec![s("l"), s("i"), s("p"), s("m")]).expect("a value");
    assert_eq!(
        keys(&full.document(&folder).expect("a document")),
        [("label", 0), ("id", 1), ("path", 2), ("marker_name", 3)]
    );
}

#[test]
fn document_uses_the_wire_keys() {
    let device = companion(
        Some("camelCase"),
        vec![plain("device_id", Some("deviceID")), optional("max_send_kbps", None), optional("name", Some("n"))],
    );
    let record = device.from_source(vec![s("a"), s("b"), s("c")]).expect("a value");
    assert_eq!(
        keys(&record.document(&device).expect("a document")),
        [("deviceID", 0), ("maxSendKbps", 1), ("n", 2)]
    );
}

#[test]
fn a_field_that_does_not_omit_itself_appears_while_absent() {
    let mut kept = optional("label", None);
    kept.omit_if_absent = false;
    let odd = companion(None, vec![kept, plain("id", None)]);
    let record = odd.construct(vec![s("the-id")]).expect("a value");
    let document = record.document(&odd).expect("a document");
    assert_eq!(keys(&document), [("label", 0), ("id", 1)]);
    assert!(record.get(0).and_then(|slot| slot.value()).is_none());
}

#[test]
fn there_is_no_document_without_a_key_for_a_field_that_appears() {
    let unknown = companion(Some("Title Case"), vec![plain("id", None), optional("label", None)]);
    let record = unknown.construct(vec![s("the-id")]).expect("a value");
    assert!(record.document(&unknown).is_none());
    let renamed = companion(Some("Title Case"), vec![plain("id", Some("ID")), optional("label", None)]);
    let record = renamed.construct(vec![s("the-id")]).expect("a value");
    assert_eq!(keys(&record.document(&renamed).expect("a document")), [("ID", 0)]);
    assert!(record.set(1, s("l")).expect("a field").document(&renamed).is_none());
}

#[test]
fn there_is_no_document_for_a_value_of_another_type() {
    let folder = folder();
    let other = companion(None, vec![plain("id", None)]);
    let record = other.construct(vec![s("the-id")]).expect("a value");
    assert!(record.document(&folder).is_none());
    assert!(Record::<String> { slots: vec![] }.document(&folder).is_none());
}
