//! The CDC projection pipeline.
//!
//! A bus adapter hands each received message to [`consume_step`] as plain
//! values: the topic, the message key, and the payload already parsed into a
//! [`Value`] (or nothing when the bytes did not parse).  The step decodes
//! the envelope for the topic's entity kind, applies create, update or
//! delete semantics to the store, and advances the partition cursor only on
//! success: a message that cannot be decoded or applied leaves the cursor
//! behind it, so a restart re-reads it (at-least-once).
//!
//! [`lemma_idempotent_apply`] and [`lemma_at_least_once`] state the two
//! stream-level laws: the final state of a slot is decided by the last
//! event alone, and commits never pass the first failed message.

use vstd::prelude::*;
use crate::browser::Browser;
use crate::document::Document;
use crate::document::IndexDocument;
use crate::errors::ServiceError;
use crate::form::Form;
use crate::generic::Generic;
use crate::menu_item::MenuItem;
use crate::menu_tree::MenuTree;
use crate::process::Process;
use crate::role::Role;
use crate::store::MemoryStore;
use crate::text::push_char;
use crate::text::str_eq;
use crate::value::Key;
use crate::value::ValModel;
use crate::value::Value;
use crate::window::Window;

verus! {

/// The consumer-side context of the bus client.  The adapter installs it on
/// its consumer to log pre- and post-rebalance assignments and offset-commit
/// results; no application state survives a rebalance, because the
/// projection is idempotent by id.
#[derive(Debug, Clone, Copy)]
pub struct CustomContext;

/// The event type carried by a message key.
#[derive(Clone, Copy, PartialEq, Eq, Structural, Debug)]
pub enum EventKind {
    New,
    Update,
    Delete,
}

/// The recognized topics; the topic is the authoritative kind
/// discriminator.
#[derive(Clone, Copy, PartialEq, Eq, Structural, Debug)]
pub enum Topic {
    Browser,
    Form,
    Process,
    Window,
    MenuItem,
    MenuTree,
    Role,
}

// --- message key and topic parsing ------------------------------------------

/// The key with every double quote removed.
pub open spec fn spec_strip_quotes(s: Seq<char>) -> Seq<char>
    decreases s,
{
    if s.len() == 0 {
        Seq::empty()
    } else if s[0] == '"' {
        spec_strip_quotes(s.drop_first())
    } else {
        seq![s[0]] + spec_strip_quotes(s.drop_first())
    }
}

/// The event type a key denotes: its unquoted text must be exactly `new`,
/// `update` or `delete`.
pub open spec fn spec_parse_event(key: Seq<char>) -> Option<EventKind> {
    let t = spec_strip_quotes(key);
    if t == "new"@ {
        Option::Some(EventKind::New)
    } else if t == "update"@ {
        Option::Some(EventKind::Update)
    } else if t == "delete"@ {
        Option::Some(EventKind::Delete)
    } else {
        Option::None
    }
}

/// The entity kind a topic names.
pub open spec fn spec_parse_topic(topic: Seq<char>) -> Option<Topic> {
    if topic == "browser"@ {
        Option::Some(Topic::Browser)
    } else if topic == "form"@ {
        Option::Some(Topic::Form)
    } else if topic == "process"@ {
        Option::Some(Topic::Process)
    } else if topic == "window"@ {
        Option::Some(Topic::Window)
    } else if topic == "menu_item"@ {
        Option::Some(Topic::MenuItem)
    } else if topic == "menu_tree"@ {
        Option::Some(Topic::MenuTree)
    } else if topic == "role"@ {
        Option::Some(Topic::Role)
    } else {
        Option::None
    }
}

/// Removes every double quote from the key.
#[verifier::loop_isolation(false)]
pub fn strip_quotes(key: &String) -> (r: String)
    ensures
        r@ == spec_strip_quotes(key@),
{
    let n: usize = key.as_str().unicode_len();
    let mut out = String::new();
    let mut i: usize = 0;
    proof {
        assert(key@.subrange(0, n as int) =~= key@);
        assert(out@ + spec_strip_quotes(key@) =~= spec_strip_quotes(key@));
    }
    while i < n
        invariant
            n == key@.len(),
            0 <= i <= n,
            spec_strip_quotes(key@) == out@ + spec_strip_quotes(
                key@.subrange(i as int, n as int),
            ),
        decreases n - i,
    {
        let ghost rest = key@.subrange(i as int, n as int);
        proof {
            assert(rest[0] == key@[i as int]);
            assert(rest.drop_first() =~= key@.subrange(i + 1, n as int));
        }
        let c = key.as_str().get_char(i);
        if c != '"' {
            let ghost before = out@;
            push_char(&mut out, c);
            proof {
                assert(out@ =~= before + seq![key@[i as int]]);
                assert(before + (seq![key@[i as int]] + spec_strip_quotes(
                    key@.subrange(i + 1, n as int),
                )) =~= before + seq![key@[i as int]] + spec_strip_quotes(
                    key@.subrange(i + 1, n as int),
                ));
            }
        }
        i = i + 1;
    }
    proof {
        assert(key@.subrange(n as int, n as int) =~= Seq::<char>::empty());
        assert(spec_strip_quotes(key@) =~= out@);
    }
    out
}

/// Parses the event type from a message key.
pub fn parse_event_type(key: &String) -> (r: Option<EventKind>)
    ensures
        r == spec_parse_event(key@),
{
    let t = strip_quotes(key);
    if str_eq(&t, "new") {
        Option::Some(EventKind::New)
    } else if str_eq(&t, "update") {
        Option::Some(EventKind::Update)
    } else if str_eq(&t, "delete") {
        Option::Some(EventKind::Delete)
    } else {
        Option::None
    }
}

/// Parses the entity kind from a topic name.
pub fn parse_topic(topic: &String) -> (r: Option<Topic>)
    ensures
        r == spec_parse_topic(topic@),
{
    if str_eq(topic, "browser") {
        Option::Some(Topic::Browser)
    } else if str_eq(topic, "form") {
        Option::Some(Topic::Form)
    } else if str_eq(topic, "process") {
        Option::Some(Topic::Process)
    } else if str_eq(topic, "window") {
        Option::Some(Topic::Window)
    } else if str_eq(topic, "menu_item") {
        Option::Some(Topic::MenuItem)
    } else if str_eq(topic, "menu_tree") {
        Option::Some(Topic::MenuTree)
    } else if str_eq(topic, "role") {
        Option::Some(Topic::Role)
    } else {
        Option::None
    }
}

// --- envelope decoding ------------------------------------------------------

/// The value stored under a key of an object, if any; first match.
pub open spec fn spec_field_of(fs: Seq<(Key, ValModel)>, k: Key) -> Option<ValModel>
    decreases fs,
{
    if fs.len() == 0 {
        Option::None
    } else if fs[0].0 == k {
        Option::Some(fs[0].1)
    } else {
        spec_field_of(fs.drop_first(), k)
    }
}

/// The `document` member of an envelope object, if present.
pub open spec fn spec_envelope_document(v: ValModel) -> Option<ValModel> {
    match v {
        ValModel::Object(fs) => spec_field_of(fs, Key::Document),
        _ => Option::None,
    }
}

/// The position of the first field with this key.
#[verifier::loop_isolation(false)]
fn field_position(fs: &Vec<(Key, Value)>, k: Key) -> (r: Option<usize>)
    ensures
        match r {
            Option::Some(j) => j < fs@.len() && spec_field_of(Value::fields_of(fs@), k)
                == Option::Some(fs@[j as int].1.model()),
            Option::None => spec_field_of(Value::fields_of(fs@), k) is None,
        },
{
    let ghost fsm = Value::fields_of(fs@);
    proof {
        crate::value::lemma_fields_of(fs@);
        assert(fsm.subrange(0, fsm.len() as int) =~= fsm);
    }
    let mut j: usize = 0;
    while j < fs.len()
        invariant
            0 <= j <= fs@.len(),
            fsm.len() == fs@.len(),
            spec_field_of(fsm, k) == spec_field_of(fsm.subrange(j as int, fsm.len() as int), k),
        decreases fs@.len() - j,
    {
        let ghost rest = fsm.subrange(j as int, fsm.len() as int);
        proof {
            assert(rest[0] == fsm[j as int]);
            assert(rest.drop_first() =~= fsm.subrange(j + 1, fsm.len() as int));
            assert(fsm[j as int] == (fs@[j as int].0, fs@[j as int].1.model()));
        }
        if fs[j].0 == k {
            return Option::Some(j);
        }
        j = j + 1;
    }
    proof {
        assert(fsm.subrange(fsm.len() as int, fsm.len() as int) =~= Seq::<(Key, ValModel)>::empty());
    }
    Option::None
}

/// What a decoded entity would ask of the store.
pub struct DocPlan {
    pub index: Seq<char>,
    pub id: Seq<char>,
    pub data: ValModel,
    pub id_ok: bool,
}

/// An optional character sequence, or a default.
pub open spec fn opt_or(o: Option<Seq<char>>, d: Seq<char>) -> Seq<char> {
    match o {
        Option::Some(s) => s,
        Option::None => d,
    }
}

/// The store effect of one entity value decoded for a topic, if it decodes.
pub open spec fn spec_decode_entity(topic: Topic, v: ValModel) -> Option<DocPlan> {
    match topic {
        Topic::Browser => match Browser::dec(v) {
            Option::None => Option::None,
            Option::Some(m) => Option::Some(
                DocPlan {
                    index: opt_or(m.index_value, "browser"@),
                    id: opt_or(m.id, Seq::empty()),
                    data: Browser::enc(m),
                    id_ok: true,
                },
            ),
        },
        Topic::Form => match Form::dec(v) {
            Option::None => Option::None,
            Option::Some(m) => Option::Some(
                DocPlan {
                    index: opt_or(m.index_value, "forms"@),
                    id: opt_or(m.id, Seq::empty()),
                    data: Form::enc(m),
                    id_ok: true,
                },
            ),
        },
        Topic::Process => match Process::dec(v) {
            Option::None => Option::None,
            Option::Some(m) => Option::Some(
                DocPlan {
                    index: opt_or(m.index_value, "process"@),
                    id: opt_or(m.id, Seq::empty()),
                    data: Process::enc(m),
                    id_ok: m.id is Some,
                },
            ),
        },
        Topic::Window => match Window::dec(v) {
            Option::None => Option::None,
            Option::Some(m) => Option::Some(
                DocPlan {
                    index: opt_or(m.index_value, "window"@),
                    id: opt_or(m.id, Seq::empty()),
                    data: Window::enc(m),
                    id_ok: true,
                },
            ),
        },
        Topic::MenuItem => match MenuItem::dec(v) {
            Option::None => Option::None,
            Option::Some(m) => Option::Some(
                DocPlan {
                    index: opt_or(m.index_value, "menu"@),
                    id: opt_or(m.id, Seq::empty()),
                    data: MenuItem::enc(m),
                    id_ok: m.id is Some,
                },
            ),
        },
        Topic::MenuTree => match MenuTree::dec(v) {
            Option::None => Option::None,
            Option::Some(m) => Option::Some(
                DocPlan {
                    index: opt_or(m.index_value, "menu"@),
                    id: opt_or(m.id, Seq::empty()),
                    data: MenuTree::enc(m),
                    id_ok: true,
                },
            ),
        },
        Topic::Role => match Role::dec(v) {
            Option::None => Option::None,
            Option::Some(m) => Option::Some(
                DocPlan {
                    index: opt_or(m.index_value, "menu"@),
                    id: opt_or(m.id, Seq::empty()),
                    data: Role::enc(m),
                    id_ok: true,
                },
            ),
        },
    }
}

/// Decodes one entity value for a topic into a dispatchable document.
pub fn decode_document(topic: &Topic, v: &Value) -> (r: Option<Document>)
    ensures
        match (r, spec_decode_entity(*topic, v.model())) {
            (Option::Some(d), Option::Some(p)) => d.spec_index() == p.index && d.spec_id() == p.id
                && d.spec_data() == p.data && d.id_ready() == p.id_ok,
            (Option::None, Option::None) => true,
            _ => false,
        },
{
    match topic {
        Topic::Browser => match Browser::decode(v) {
            Option::Some(d) => Option::Some(Document::Browser(d)),
            Option::None => Option::None,
        },
        Topic::Form => match Form::decode(v) {
            Option::Some(d) => Option::Some(Document::Form(d)),
            Option::None => Option::None,
        },
        Topic::Process => match Process::decode(v) {
            Option::Some(d) => Option::Some(Document::Process(d)),
            Option::None => Option::None,
        },
        Topic::Window => match Window::decode(v) {
            Option::Some(d) => Option::Some(Document::Window(d)),
            Option::None => Option::None,
        },
        Topic::MenuItem => match MenuItem::decode(v) {
            Option::Some(d) => Option::Some(Document::MenuItem(d)),
            Option::None => Option::None,
        },
        Topic::MenuTree => match MenuTree::decode(v) {
            Option::Some(d) => Option::Some(Document::MenuTree(d)),
            Option::None => Option::None,
        },
        Topic::Role => match Role::decode(v) {
            Option::Some(d) => Option::Some(Document::Role(d)),
            Option::None => Option::None,
        },
    }
}

// --- applying one event -----------------------------------------------------

/// The value a slot holds after one event: create and update store the
/// payload, delete clears the slot, an unrecognized event type leaves it.
pub open spec fn spec_apply_slot(
    cur: Option<ValModel>,
    ev: Option<EventKind>,
    payload: ValModel,
) -> Option<ValModel> {
    match ev {
        Option::Some(EventKind::New) => Option::Some(payload),
        Option::Some(EventKind::Update) => Option::Some(payload),
        Option::Some(EventKind::Delete) => Option::None,
        Option::None => cur,
    }
}

/// Applies one event to the store: `new` upserts, `update` deletes then
/// upserts, `delete` deletes (a missing document is success), and an
/// unrecognized event type is a no-op success.
pub fn process_index(
    event_type: &Option<EventKind>,
    document: &Document,
    store: &mut MemoryStore,
) -> (r: Result<bool, ServiceError>)
    requires
        document.id_ready(),
    ensures
        r is Ok,
        *event_type is None ==> *final(store) == *old(store),
        final(store).spec_lookup(document.spec_index(), document.spec_id()) == spec_apply_slot(
            old(store).spec_lookup(document.spec_index(), document.spec_id()),
            *event_type,
            document.spec_data(),
        ),
        forall|id2: Seq<char>|
            id2 != document.spec_id() ==> #[trigger] final(store).spec_lookup(
                document.spec_index(),
                id2,
            ) == old(store).spec_lookup(document.spec_index(), id2),
        forall|n: Seq<char>, id2: Seq<char>|
            n != document.spec_index() ==> #[trigger] final(store).spec_lookup(n, id2) == old(
                store,
            ).spec_lookup(n, id2),
{
    match event_type {
        Option::Some(EventKind::New) => {
            let r = store.create(document);
            match r {
                Result::Ok(_) => Result::Ok(true),
                Result::Err(e) => Result::Err(e),
            }
        },
        Option::Some(EventKind::Update) => {
            let r = store.delete(document);
            match r {
                Result::Ok(_) => {
                    let r2 = store.create(document);
                    match r2 {
                        Result::Ok(_) => Result::Ok(true),
                        Result::Err(e) => Result::Err(e),
                    }
                },
                Result::Err(e) => Result::Err(e),
            }
        },
        Option::Some(EventKind::Delete) => {
            let r = store.delete(document);
            match r {
                Result::Ok(_) => Result::Ok(true),
                Result::Err(e) => Result::Err(e),
            }
        },
        Option::None => Result::Ok(true),
    }
}

// --- the idempotent-apply law ------------------------------------------------

/// A slot after a stream of recognized events.
pub open spec fn spec_apply_events(
    cur: Option<ValModel>,
    evs: Seq<(EventKind, ValModel)>,
) -> Option<ValModel>
    decreases evs,
{
    if evs.len() == 0 {
        cur
    } else {
        spec_apply_events(
            spec_apply_slot(cur, Option::Some(evs[0].0), evs[0].1),
            evs.drop_first(),
        )
    }
}

/// The idempotent-apply law: over a single `(topic, id)` the final state is
/// decided by the last event alone — the stored payload of the last event
/// unless it was a delete, in which case the slot is empty.  In particular
/// the intermediate delete of an update leaves no residue.
pub proof fn lemma_idempotent_apply(cur: Option<ValModel>, evs: Seq<(EventKind, ValModel)>)
    requires
        evs.len() > 0,
    ensures
        spec_apply_events(cur, evs) == (if evs.last().0 is Delete {
            Option::<ValModel>::None
        } else {
            Option::Some(evs.last().1)
        }),
    decreases evs,
{
    if evs.len() == 1 {
    } else {
        lemma_idempotent_apply(
            spec_apply_slot(cur, Option::Some(evs[0].0), evs[0].1),
            evs.drop_first(),
        );
        assert(evs.drop_first().last() == evs.last());
    }
}

/// An update applied as delete-then-create equals the single upsert.
pub proof fn lemma_update_wholesale(cur: Option<ValModel>, payload: ValModel)
    ensures
        spec_apply_slot(cur, Option::Some(EventKind::Update), payload) == spec_apply_slot(
            spec_apply_slot(cur, Option::Some(EventKind::Delete), payload),
            Option::Some(EventKind::New),
            payload,
        ),
{
}

// --- the partition cursor and the at-least-once law --------------------------

/// The commit cursor of one partition: the next offset that would be
/// committed, and whether commits have stopped behind a failed message.
#[derive(Debug, Clone, Copy)]
pub struct PartitionCursor {
    pub next_offset: u64,
    pub halted: bool,
}

/// The cursor after one message's outcome: success commits the next offset;
/// a failure halts the cursor, and a halted cursor never advances.
pub open spec fn spec_record(c: PartitionCursor, ok: bool) -> PartitionCursor {
    if ok && !c.halted {
        PartitionCursor { next_offset: (c.next_offset + 1) as u64, halted: false }
    } else {
        PartitionCursor { next_offset: c.next_offset, halted: c.halted || !ok }
    }
}

impl PartitionCursor {
    /// A fresh cursor at the partition's starting offset.
    pub fn new(start: u64) -> (r: PartitionCursor)
        ensures
            r.next_offset == start,
            !r.halted,
    {
        PartitionCursor { next_offset: start, halted: false }
    }

    /// Notes one message's outcome.
    pub fn record(&mut self, ok: bool)
        requires
            old(self).next_offset < u64::MAX,
        ensures
            *final(self) == spec_record(*old(self), ok),
    {
        if ok && !self.halted {
            self.next_offset = self.next_offset + 1;
        } else {
            self.halted = true;
        }
    }
}

/// The cursor after a run of outcomes.
pub open spec fn spec_run_cursor(c: PartitionCursor, outcomes: Seq<bool>) -> PartitionCursor
    decreases outcomes,
{
    if outcomes.len() == 0 {
        c
    } else {
        spec_run_cursor(spec_record(c, outcomes[0]), outcomes.drop_first())
    }
}

/// The at-least-once law: when a message fails, the partition's committed
/// offset never advances past it, whatever happens afterwards.
pub proof fn lemma_at_least_once(c: PartitionCursor, outcomes: Seq<bool>, i: int)
    requires
        !c.halted,
        c.next_offset + outcomes.len() <= u64::MAX,
        0 <= i < outcomes.len(),
        !outcomes[i],
    ensures
        spec_run_cursor(c, outcomes).next_offset <= c.next_offset + i,
    decreases outcomes,
{
    if i == 0 {
        lemma_halted_stays(spec_record(c, false), outcomes.drop_first());
    } else {
        if outcomes[0] {
            lemma_at_least_once(spec_record(c, true), outcomes.drop_first(), i - 1);
        } else {
            lemma_halted_stays(spec_record(c, false), outcomes.drop_first());
        }
    }
}

/// A halted cursor never advances.
proof fn lemma_halted_stays(c: PartitionCursor, outcomes: Seq<bool>)
    requires
        c.halted,
    ensures
        spec_run_cursor(c, outcomes).next_offset == c.next_offset,
        spec_run_cursor(c, outcomes).halted,
    decreases outcomes,
{
    if outcomes.len() > 0 {
        lemma_halted_stays(spec_record(c, outcomes[0]), outcomes.drop_first());
    }
}

// --- one full message step ---------------------------------------------------

/// What the step decided to do with a message.
pub enum StepPlan {
    /// The message is left uncommitted: unknown topic, unparsable payload,
    /// undecodable document, or a document without its required id.
    Reject,
    /// Tombstone or unrecognized event type: nothing to store, committed.
    Noop,
    /// A decoded document applied with an event kind.
    Apply(EventKind, DocPlan),
}

/// The decision for a message, from its topic, key and parsed payload.
pub open spec fn spec_step_plan(
    topic: Seq<char>,
    key: Seq<char>,
    payload: Option<ValModel>,
) -> StepPlan {
    match spec_parse_topic(topic) {
        Option::None => StepPlan::Reject,
        Option::Some(t) => match payload {
            Option::None => StepPlan::Reject,
            Option::Some(v) => match spec_envelope_document(v) {
                Option::None => if v is Object {
                    StepPlan::Noop
                } else {
                    StepPlan::Reject
                },
                Option::Some(dv) => if dv is Null {
                    StepPlan::Noop
                } else {
                    match spec_decode_entity(t, dv) {
                        Option::None => StepPlan::Reject,
                        Option::Some(plan) => if !plan.id_ok {
                            StepPlan::Reject
                        } else {
                            match spec_parse_event(key) {
                                Option::None => StepPlan::Noop,
                                Option::Some(k) => StepPlan::Apply(k, plan),
                            }
                        },
                    }
                },
            },
        },
    }
}

/// Handles one received message: decodes it for its topic, applies the
/// event to the store, and advances the cursor exactly when the message was
/// handled; every rejected message halts the cursor so that no later commit
/// passes it.
pub fn consume_step(
    store: &mut MemoryStore,
    cursor: &mut PartitionCursor,
    topic: &String,
    key: &String,
    payload: &Option<Value>,
) -> (r: Result<bool, ServiceError>)
    requires
        old(cursor).next_offset < u64::MAX,
    ensures
        *final(cursor) == spec_record(*old(cursor), r is Ok),
        ({
            let payload_model = match *payload {
                Option::Some(v) => Option::Some(v.model()),
                Option::None => Option::None,
            };
            match spec_step_plan(topic@, key@, payload_model) {
                StepPlan::Reject => r is Err && *final(store) == *old(store),
                StepPlan::Noop => r is Ok && *final(store) == *old(store),
                StepPlan::Apply(k, plan) => r is Ok && final(store).spec_lookup(plan.index, plan.id)
                    == spec_apply_slot(
                    old(store).spec_lookup(plan.index, plan.id),
                    Option::Some(k),
                    plan.data,
                ) && (forall|id2: Seq<char>|
                    id2 != plan.id ==> #[trigger] final(store).spec_lookup(plan.index, id2) == old(
                        store,
                    ).spec_lookup(plan.index, id2)) && (forall|n: Seq<char>, id2: Seq<char>|
                    n != plan.index ==> #[trigger] final(store).spec_lookup(n, id2) == old(
                        store,
                    ).spec_lookup(n, id2)),
            }
        }),
{
    let parsed_topic = match parse_topic(topic) {
        Option::Some(t) => t,
        Option::None => {
            cursor.record(false);
            return Result::Err(ServiceError::Decode("Unknown topic".to_owned()));
        },
    };
    let body = match payload {
        Option::Some(v) => v,
        Option::None => {
            cursor.record(false);
            return Result::Err(ServiceError::Decode("Malformed payload".to_owned()));
        },
    };
    let fields = match body {
        Value::Object(fields) => fields,
        _ => {
            cursor.record(false);
            return Result::Err(ServiceError::Decode("Envelope is not an object".to_owned()));
        },
    };
    let doc_value = match field_position(fields, Key::Document) {
        Option::None => {
            cursor.record(true);
            return Result::Ok(true);
        },
        Option::Some(j) => &fields[j].1,
    };
    if let Value::Null = doc_value {
        cursor.record(true);
        return Result::Ok(true);
    }
    proof {
        assert(!(doc_value.model() is Null));
    }
    let document = match decode_document(&parsed_topic, doc_value) {
        Option::Some(d) => d,
        Option::None => {
            cursor.record(false);
            return Result::Err(ServiceError::Decode("Undecodable document".to_owned()));
        },
    };
    if !document_id_ready(&document) {
        cursor.record(false);
        return Result::Err(ServiceError::Decode("Document without identifier".to_owned()));
    }
    let event_type = parse_event_type(key);
    let applied = process_index(&event_type, &document, store);
    match applied {
        Result::Ok(_) => {
            cursor.record(true);
            Result::Ok(true)
        },
        Result::Err(e) => {
            cursor.record(false);
            Result::Err(e)
        },
    }
}

/// Whether the document carries the id its kind requires.
fn document_id_ready(document: &Document) -> (r: bool)
    ensures
        r == document.id_ready(),
{
    match document {
        Document::MenuItem(d) => d.id.is_some(),
        Document::Process(d) => d.id.is_some(),
        Document::Generic(d) => d.id.is_some(),
        Document::MenuTree(_) => true,
        Document::Role(_) => true,
        Document::Window(_) => true,
        Document::Browser(_) => true,
        Document::Form(_) => true,
    }
}

} // verus!
