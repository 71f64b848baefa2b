//! The CDC projection pipeline against the in-memory store.

use dictionary_gateway::document::Document;
use dictionary_gateway::document::IndexDocument;
use dictionary_gateway::pipeline::consume_step;
use dictionary_gateway::pipeline::parse_event_type;
use dictionary_gateway::pipeline::parse_topic;
use dictionary_gateway::pipeline::process_index;
use dictionary_gateway::pipeline::EventKind;
use dictionary_gateway::pipeline::PartitionCursor;
use dictionary_gateway::pipeline::Topic;
use dictionary_gateway::process::Process;
use dictionary_gateway::process::ProcessParameters;
use dictionary_gateway::store::MemoryStore;
use dictionary_gateway::value::Key;
use dictionary_gateway::value::Value;
use dictionary_gateway::window::Window;

fn s(v: &str) -> String {
    v.to_owned()
}

fn window_w1() -> Window {
    let mut w = Window::empty();
    w.id = Some(s("W-1"));
    w.internal_id = Some(1);
    w.name = Some(s("Sales Order"));
    w.tabs = Some(Vec::new());
    w
}

fn envelope(doc: Value) -> Value {
    Value::Object(vec![(Key::Document, doc)])
}

#[test]
fn new_event_creates_the_document() {
    // Topic `window`, key "new": upsert at the default window index, committed.
    let mut store = MemoryStore::new();
    let mut cursor = PartitionCursor::new(0);
    let payload = Some(envelope(window_w1().encode()));
    let r = consume_step(&mut store, &mut cursor, &s("window"), &s("\"new\""), &payload);
    assert!(r.is_ok());
    assert_eq!(cursor.next_offset, 1);
    assert!(!cursor.halted);
    assert!(store.exists_index(&s("window")));
    let fetched = store.get_by_id(&window_w1()).unwrap();
    let decoded = Window::decode(&fetched).unwrap();
    assert_eq!(decoded.id, Some(s("W-1")));
    assert_eq!(decoded.name, Some(s("Sales Order")));
}

fn process_with(id: &str, params: Vec<(&str, i32)>) -> Process {
    let mut p = Process::empty();
    p.id = Some(s(id));
    p.parameters = Some(
        params
            .into_iter()
            .map(|(pid, seq)| {
                let mut param = ProcessParameters::empty();
                param.id = Some(s(pid));
                param.sequence = Some(seq);
                param
            })
            .collect(),
    );
    p
}

#[test]
fn update_replaces_the_document_wholesale() {
    // Preexisting P-9 with parameters a,b; an update with only parameter c
    // must leave only c.
    let mut store = MemoryStore::new();
    let before = process_with("P-9", vec![("a", 2), ("b", 1)]);
    store.create(&before).unwrap();
    let after = process_with("P-9", vec![("c", 1)]);
    let r = process_index(&Some(EventKind::Update), &Document::Process(after), &mut store);
    assert!(r.is_ok());
    let fetched = store.get_by_id(&process_with("P-9", vec![])).unwrap();
    let decoded = Process::decode(&fetched).unwrap();
    let params = decoded.parameters.unwrap();
    assert_eq!(params.len(), 1);
    assert_eq!(params[0].id, Some(s("c")));
}

#[test]
fn delete_of_a_missing_document_is_success() {
    // Deleting a ghost id from an existing index returns Ok regardless.
    let mut store = MemoryStore::new();
    let mut seeded = Window::empty();
    seeded.id = Some(s("W-1"));
    seeded.index_value = Some(s("window_en"));
    store.create(&seeded).unwrap();
    let mut ghost = Window::empty();
    ghost.id = Some(s("ghost"));
    ghost.index_value = Some(s("window_en"));
    let r = store.delete(&ghost);
    assert_eq!(r.unwrap(), true);
    // the seeded document is untouched
    assert!(store.get_by_id(&seeded).is_ok());
}

#[test]
fn last_event_decides_the_final_state() {
    // new, update, update, delete over one (topic, id): the slot is empty.
    let mut store = MemoryStore::new();
    let doc = || Document::Window(window_w1());
    process_index(&Some(EventKind::New), &doc(), &mut store).unwrap();
    process_index(&Some(EventKind::Update), &doc(), &mut store).unwrap();
    process_index(&Some(EventKind::Update), &doc(), &mut store).unwrap();
    process_index(&Some(EventKind::Delete), &doc(), &mut store).unwrap();
    assert!(store.get_by_id(&window_w1()).is_err());
    // ... and a trailing non-delete leaves exactly the last payload.
    process_index(&Some(EventKind::New), &doc(), &mut store).unwrap();
    assert!(store.get_by_id(&window_w1()).is_ok());
}

#[test]
fn offsets_do_not_advance_past_a_failed_message() {
    let mut store = MemoryStore::new();
    let mut cursor = PartitionCursor::new(7);
    // An unknown topic is not committed and halts the partition cursor.
    let bad = consume_step(&mut store, &mut cursor, &s("mystery"), &s("new"), &None);
    assert!(bad.is_err());
    assert_eq!(cursor.next_offset, 7);
    // A later success no longer advances the cursor past the failure.
    let payload = Some(envelope(window_w1().encode()));
    let _ = consume_step(&mut store, &mut cursor, &s("window"), &s("new"), &payload);
    assert_eq!(cursor.next_offset, 7);
    assert!(cursor.halted);
}

#[test]
fn tombstones_are_tolerated_and_committed() {
    let mut store = MemoryStore::new();
    let mut cursor = PartitionCursor::new(0);
    let payload = Some(Value::Object(vec![(Key::Document, Value::Null)]));
    let r = consume_step(&mut store, &mut cursor, &s("window"), &s("new"), &payload);
    assert!(r.is_ok());
    assert_eq!(cursor.next_offset, 1);
    assert!(!store.exists_index(&s("window")));
}

#[test]
fn event_keys_are_unquoted_and_recognized() {
    assert_eq!(parse_event_type(&s("\"new\"")), Some(EventKind::New));
    assert_eq!(parse_event_type(&s("update")), Some(EventKind::Update));
    assert_eq!(parse_event_type(&s("\"delete\"")), Some(EventKind::Delete));
    assert_eq!(parse_event_type(&s("other")), None);
}

#[test]
fn topics_discriminate_the_entity_kind() {
    assert_eq!(parse_topic(&s("window")), Some(Topic::Window));
    assert_eq!(parse_topic(&s("menu_item")), Some(Topic::MenuItem));
    assert_eq!(parse_topic(&s("menu_tree")), Some(Topic::MenuTree));
    assert_eq!(parse_topic(&s("role")), Some(Topic::Role));
    assert_eq!(parse_topic(&s("browser")), Some(Topic::Browser));
    assert_eq!(parse_topic(&s("form")), Some(Topic::Form));
    assert_eq!(parse_topic(&s("process")), Some(Topic::Process));
    assert_eq!(parse_topic(&s("menu")), None);
}

#[test]
fn mapping_is_created_once_and_kept() {
    let mut store = MemoryStore::new();
    let w = window_w1();
    store.create_index_definition(&w).unwrap();
    store.create_index_definition(&w).unwrap();
    assert!(store.exists_index(&s("window")));
}
