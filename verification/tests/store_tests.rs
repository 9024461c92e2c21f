use drawer_core::json::JsonValue;
use drawer_core::store::Collection;
use drawer_core::store::CollectionId;

fn s(text: &str) -> String {
    text.to_string()
}

fn record_with_id(id: &str, label: &str) -> JsonValue {
    JsonValue::Obj(vec![
        (s("id"), JsonValue::Str(s(id))),
        (s("label"), JsonValue::Str(s(label))),
    ])
}

#[test]
fn test_set_then_get_round_trip() {
    let mut c = Collection::new(s("settings"));
    let value = JsonValue::Obj(vec![
        (s("theme"), JsonValue::Str(s("light"))),
        (s("count"), JsonValue::Int(3)),
        (s("tags"), JsonValue::Arr(vec![JsonValue::Str(s("a")), JsonValue::Null])),
    ]);
    c.set(&s("settings"), value.deep_copy());
    let got = c.get(&s("settings"), &JsonValue::Null);
    assert_eq!(got, value);
}

#[test]
fn test_get_default_fallback() {
    let c = Collection::new(s("notes"));
    let default = JsonValue::Arr(vec![JsonValue::Int(7), JsonValue::Bool(false)]);
    let got = c.get(&s("neverWritten"), &default);
    assert_eq!(got, default);
}

#[test]
fn test_set_overwrites_same_key() {
    let mut c = Collection::new(s("tasks"));
    c.set(&s("tasks"), JsonValue::Int(1));
    c.set(&s("tasks"), JsonValue::Int(2));
    assert_eq!(c.get(&s("tasks"), &JsonValue::Null), JsonValue::Int(2));
}

#[test]
fn test_persist_then_reload() {
    let mut c = Collection::new(s("conversations"));
    c.set(&s("conversations"), JsonValue::Arr(vec![record_with_id("c1", "first")]));
    c.set(&s("other"), JsonValue::Str(s("kept")));
    let document = c.to_document();
    // A fresh load of the persisted document, as after a process restart.
    let fresh = Collection::from_document(s("conversations"), &document);
    assert_eq!(
        fresh.get(&s("conversations"), &JsonValue::Null),
        c.get(&s("conversations"), &JsonValue::Null)
    );
    assert_eq!(fresh.get(&s("other"), &JsonValue::Null), JsonValue::Str(s("kept")));
}

#[test]
fn test_corrupt_document_loads_empty() {
    // A missing or corrupt backing file is an absent collection: defaults only.
    let fresh = Collection::from_document(s("settings"), &JsonValue::Str(s("not an object")));
    let default = JsonValue::Bool(true);
    assert_eq!(fresh.get(&s("settings"), &default), default);
}

#[test]
fn test_list_absent_key_is_empty() {
    let c = Collection::new(s("shortcuts"));
    assert_eq!(c.list(&s("shortcuts")), Vec::<JsonValue>::new());
}

#[test]
fn test_list_non_array_is_empty() {
    let mut c = Collection::new(s("shortcuts"));
    c.set(&s("shortcuts"), JsonValue::Int(9));
    assert_eq!(c.list(&s("shortcuts")), Vec::<JsonValue>::new());
}

#[test]
fn test_append_preserves_order() {
    let mut c = Collection::new(s("windowLayouts"));
    let first = record_with_id("a", "one");
    let second = record_with_id("b", "two");
    let third = record_with_id("c", "three");
    c.append(&s("windowLayouts"), first.deep_copy());
    c.append(&s("windowLayouts"), second.deep_copy());
    let result = c.append(&s("windowLayouts"), third.deep_copy());
    assert_eq!(result, vec![first, second, third]);
    assert_eq!(c.list(&s("windowLayouts")), result);
}

#[test]
fn test_remove_by_id_removes_all_matches() {
    let mut c = Collection::new(s("windowLayouts"));
    c.append(&s("windowLayouts"), record_with_id("a", "one"));
    c.append(&s("windowLayouts"), record_with_id("b", "two"));
    c.append(&s("windowLayouts"), record_with_id("a", "three"));
    let result = c.remove_by_id(&s("windowLayouts"), &s("a"));
    assert_eq!(result, vec![record_with_id("b", "two")]);
}

#[test]
fn test_remove_absent_id_noop() {
    let mut c = Collection::new(s("windowLayouts"));
    c.append(&s("windowLayouts"), record_with_id("a", "one"));
    c.append(&s("windowLayouts"), record_with_id("b", "two"));
    let result = c.remove_by_id(&s("windowLayouts"), &s("zzz"));
    assert_eq!(result, vec![record_with_id("a", "one"), record_with_id("b", "two")]);
}

#[test]
fn test_remove_by_id_idempotent() {
    let mut c = Collection::new(s("windowLayouts"));
    c.append(&s("windowLayouts"), record_with_id("a", "one"));
    c.append(&s("windowLayouts"), record_with_id("b", "two"));
    let once = c.remove_by_id(&s("windowLayouts"), &s("a"));
    let twice = c.remove_by_id(&s("windowLayouts"), &s("a"));
    assert_eq!(once, twice);
}

#[test]
fn test_remove_by_id_ignores_records_without_id() {
    let mut c = Collection::new(s("windowLayouts"));
    c.append(&s("windowLayouts"), JsonValue::Str(s("no id here")));
    c.append(&s("windowLayouts"), record_with_id("a", "one"));
    let result = c.remove_by_id(&s("windowLayouts"), &s("a"));
    assert_eq!(result, vec![JsonValue::Str(s("no id here"))]);
}

#[test]
fn test_collection_names_and_files() {
    assert_eq!(CollectionId::Settings.key(), s("settings"));
    assert_eq!(CollectionId::Settings.file_name(), s("settings.json"));
    assert_eq!(CollectionId::WindowLayouts.key(), s("windowLayouts"));
    assert_eq!(CollectionId::WindowLayouts.file_name(), s("layouts.json"));
    assert_eq!(CollectionId::ResearchNotes.key(), s("researchNotes"));
    assert_eq!(CollectionId::ResearchNotes.file_name(), s("research.json"));
    assert_eq!(CollectionId::Shortcuts.file_name(), s("shortcuts.json"));
    assert_eq!(CollectionId::Conversations.file_name(), s("conversations.json"));
    assert_eq!(CollectionId::Tasks.file_name(), s("tasks.json"));
    assert_eq!(CollectionId::Notes.file_name(), s("notes.json"));
}

#[test]
fn test_collection_keeps_its_name() {
    let c = Collection::new(s("research"));
    assert_eq!(c.name(), &s("research"));
}
