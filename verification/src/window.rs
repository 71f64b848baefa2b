//! The window dictionary entity: tabs, their fields, and the processes
//! reachable from each tab.

use vstd::prelude::*;
use crate::text::view_opt;
use crate::value::dec_opt_bool;
use crate::value::dec_opt_i32;
use crate::value::dec_opt_text;
use crate::value::dec_opt_texts;
use crate::value::decode_opt_bool;
use crate::value::decode_opt_i32;
use crate::value::decode_opt_text;
use crate::value::decode_opt_texts;
use crate::value::enc_opt_bool;
use crate::value::enc_opt_i32;
use crate::value::enc_opt_text;
use crate::value::enc_opt_texts;
use crate::value::encode_opt_bool;
use crate::value::encode_opt_i32;
use crate::value::encode_opt_text;
use crate::value::encode_opt_texts;
use crate::value::lemma_fields_of;
use crate::value::lemma_models_of;
use crate::value::lemma_opt_texts_round_trip;
use crate::value::view_opt_texts;
use crate::value::Key;
use crate::value::ValModel;
use crate::value::Value;

use crate::dictionary::enc_opt_dictionary_entity;
use crate::dictionary::encode_opt_dictionary_entity;
use crate::dictionary::decode_opt_dictionary_entity;
use crate::dictionary::view_opt_dictionary_entity;
use crate::dictionary::lemma_dictionary_entity_round_trip;
use crate::dictionary::DictionaryEntity;
use crate::dictionary::DictionaryEntityModel;
use crate::dictionary::enc_opt_reference;
use crate::dictionary::encode_opt_reference;
use crate::dictionary::decode_opt_reference;
use crate::dictionary::view_opt_reference;
use crate::dictionary::lemma_reference_round_trip;
use crate::dictionary::Reference;
use crate::dictionary::ReferenceModel;
use crate::dictionary::enc_opt_dependend_fields;
use crate::dictionary::dec_opt_dependend_fields;
use crate::dictionary::encode_opt_dependend_fields;
use crate::dictionary::decode_opt_dependend_fields;
use crate::dictionary::view_opt_dependend_fields;
use crate::dictionary::lemma_dependend_fields_round_trip;
use crate::dictionary::DependendField;
use crate::dictionary::DependendFieldModel;
use crate::dictionary::enc_opt_table;
use crate::dictionary::encode_opt_table;
use crate::dictionary::decode_opt_table;
use crate::dictionary::view_opt_table;
use crate::dictionary::lemma_table_round_trip;
use crate::dictionary::Table;
use crate::dictionary::TableModel;

verus! {

/// A process reachable from a window tab, with its linked browser, form
/// and workflow.
#[derive(Debug, Clone)]
pub struct WindowProcess {
    pub uuid: Option<String>,
    pub internal_id: Option<i32>,
    pub id: Option<String>,
    pub name: Option<String>,
    pub description: Option<String>,
    pub help: Option<String>,
    pub is_report: Option<bool>,
    pub is_multi_selection: Option<bool>,
    pub browser_id: Option<i32>,
    pub browser: Option<DictionaryEntity>,
    pub form_id: Option<i32>,
    pub form: Option<DictionaryEntity>,
    pub workflow_id: Option<i32>,
    pub workflow: Option<DictionaryEntity>,
}

/// The mathematical model of a [`WindowProcess`].
pub struct WindowProcessModel {
    pub uuid: Option<Seq<char>>,
    pub internal_id: Option<i32>,
    pub id: Option<Seq<char>>,
    pub name: Option<Seq<char>>,
    pub description: Option<Seq<char>>,
    pub help: Option<Seq<char>>,
    pub is_report: Option<bool>,
    pub is_multi_selection: Option<bool>,
    pub browser_id: Option<i32>,
    pub browser: Option<DictionaryEntityModel>,
    pub form_id: Option<i32>,
    pub form: Option<DictionaryEntityModel>,
    pub workflow_id: Option<i32>,
    pub workflow: Option<DictionaryEntityModel>,
}

impl WindowProcess {
    pub open spec fn model(self) -> WindowProcessModel {
        WindowProcessModel {
            uuid: view_opt(self.uuid),
            internal_id: self.internal_id,
            id: view_opt(self.id),
            name: view_opt(self.name),
            description: view_opt(self.description),
            help: view_opt(self.help),
            is_report: self.is_report,
            is_multi_selection: self.is_multi_selection,
            browser_id: self.browser_id,
            browser: view_opt_dictionary_entity(self.browser),
            form_id: self.form_id,
            form: view_opt_dictionary_entity(self.form),
            workflow_id: self.workflow_id,
            workflow: view_opt_dictionary_entity(self.workflow),
        }
    }

    pub open spec fn empty_model() -> WindowProcessModel {
        WindowProcessModel {
            uuid: Option::None,
            internal_id: Option::None,
            id: Option::None,
            name: Option::None,
            description: Option::None,
            help: Option::None,
            is_report: Option::None,
            is_multi_selection: Option::None,
            browser_id: Option::None,
            browser: Option::None,
            form_id: Option::None,
            form: Option::None,
            workflow_id: Option::None,
            workflow: Option::None,
        }
    }

    /// The stored shape: every field present under its key, absent values
    /// as null.
    pub open spec fn enc(m: WindowProcessModel) -> ValModel {
        ValModel::Object(
            seq![
                (Key::Uuid, enc_opt_text(m.uuid)),
                (Key::InternalId, enc_opt_i32(m.internal_id)),
                (Key::Id, enc_opt_text(m.id)),
                (Key::Name, enc_opt_text(m.name)),
                (Key::Description, enc_opt_text(m.description)),
                (Key::Help, enc_opt_text(m.help)),
                (Key::IsReport, enc_opt_bool(m.is_report)),
                (Key::IsMultiSelection, enc_opt_bool(m.is_multi_selection)),
                (Key::BrowserId, enc_opt_i32(m.browser_id)),
                (Key::Browser, enc_opt_dictionary_entity(m.browser)),
                (Key::FormId, enc_opt_i32(m.form_id)),
                (Key::Form, enc_opt_dictionary_entity(m.form)),
                (Key::WorkflowId, enc_opt_i32(m.workflow_id)),
                (Key::Workflow, enc_opt_dictionary_entity(m.workflow)),
            ],
        )
    }

    /// One decoding step: a recognized key sets its field; unknown keys are
    /// ignored.
    pub open spec fn apply_field(m: WindowProcessModel, k: Key, v: ValModel) -> WindowProcessModel {
        match k {
            Key::Uuid => WindowProcessModel { uuid: dec_opt_text(v), ..m },
            Key::InternalId => WindowProcessModel { internal_id: dec_opt_i32(v), ..m },
            Key::Id => WindowProcessModel { id: dec_opt_text(v), ..m },
            Key::Name => WindowProcessModel { name: dec_opt_text(v), ..m },
            Key::Description => WindowProcessModel { description: dec_opt_text(v), ..m },
            Key::Help => WindowProcessModel { help: dec_opt_text(v), ..m },
            Key::IsReport => WindowProcessModel { is_report: dec_opt_bool(v), ..m },
            Key::IsMultiSelection => WindowProcessModel { is_multi_selection: dec_opt_bool(v), ..m },
            Key::BrowserId => WindowProcessModel { browser_id: dec_opt_i32(v), ..m },
            Key::Browser => WindowProcessModel { browser: DictionaryEntity::dec(v), ..m },
            Key::FormId => WindowProcessModel { form_id: dec_opt_i32(v), ..m },
            Key::Form => WindowProcessModel { form: DictionaryEntity::dec(v), ..m },
            Key::WorkflowId => WindowProcessModel { workflow_id: dec_opt_i32(v), ..m },
            Key::Workflow => WindowProcessModel { workflow: DictionaryEntity::dec(v), ..m },
            _ => m,
        }
    }

    pub open spec fn fold_fields(m: WindowProcessModel, fs: Seq<(Key, ValModel)>, i: int) -> WindowProcessModel
        decreases fs.len() - i,
    {
        if i < 0 || i >= fs.len() {
            m
        } else {
            WindowProcess::fold_fields(WindowProcess::apply_field(m, fs[i].0, fs[i].1), fs, i + 1)
        }
    }

    /// Decoding of a stored document into a model; only objects decode.
    pub open spec fn dec(v: ValModel) -> Option<WindowProcessModel> {
        match v {
            ValModel::Object(fs) => Option::Some(WindowProcess::fold_fields(WindowProcess::empty_model(), fs, 0)),
            _ => Option::None,
        }
    }

    pub fn empty() -> (r: WindowProcess)
        ensures
            r.model() == WindowProcess::empty_model(),
    {
        WindowProcess {
            uuid: Option::None,
            internal_id: Option::None,
            id: Option::None,
            name: Option::None,
            description: Option::None,
            help: Option::None,
            is_report: Option::None,
            is_multi_selection: Option::None,
            browser_id: Option::None,
            browser: Option::None,
            form_id: Option::None,
            form: Option::None,
            workflow_id: Option::None,
            workflow: Option::None,
        }
    }

    /// The stored payload of this record.
    pub fn encode(&self) -> (r: Value)
        ensures
            r.model() == WindowProcess::enc(self.model()),
    {
        let mut fs: Vec<(Key, Value)> = Vec::new();
        fs.push((Key::Uuid, encode_opt_text(&self.uuid)));
        fs.push((Key::InternalId, encode_opt_i32(&self.internal_id)));
        fs.push((Key::Id, encode_opt_text(&self.id)));
        fs.push((Key::Name, encode_opt_text(&self.name)));
        fs.push((Key::Description, encode_opt_text(&self.description)));
        fs.push((Key::Help, encode_opt_text(&self.help)));
        fs.push((Key::IsReport, encode_opt_bool(&self.is_report)));
        fs.push((Key::IsMultiSelection, encode_opt_bool(&self.is_multi_selection)));
        fs.push((Key::BrowserId, encode_opt_i32(&self.browser_id)));
        fs.push((Key::Browser, encode_opt_dictionary_entity(&self.browser)));
        fs.push((Key::FormId, encode_opt_i32(&self.form_id)));
        fs.push((Key::Form, encode_opt_dictionary_entity(&self.form)));
        fs.push((Key::WorkflowId, encode_opt_i32(&self.workflow_id)));
        fs.push((Key::Workflow, encode_opt_dictionary_entity(&self.workflow)));
        proof {
            lemma_fields_of(fs@);
            let target = WindowProcess::enc(self.model())->Object_0;
            assert forall|j: int| 0 <= j < fs@.len() implies Value::fields_of(fs@)[j]
                == target[j] by {
                assert(Value::fields_of(fs@)[j] == (fs@[j].0, fs@[j].1.model()));
            }
            assert(Value::fields_of(fs@) =~= target);
        }
        Value::Object(fs)
    }

    /// Decoding of a stored document; inverse of [`WindowProcess::encode`] on the
    /// models.
    pub fn decode(v: &Value) -> (r: Option<WindowProcess>)
        ensures
            match (r, WindowProcess::dec(v.model())) {
                (Option::Some(x), Option::Some(m)) => x.model() == m,
                (Option::None, Option::None) => true,
                _ => false,
            },
    {
        match v {
            Value::Object(fs) => {
                let ghost fsm = Value::fields_of(fs@);
                proof {
                    lemma_fields_of(fs@);
                }
                let mut out = WindowProcess::empty();
                let mut i: usize = 0;
                while i < fs.len()
                    invariant
                        0 <= i <= fs@.len(),
                        fsm == Value::fields_of(fs@),
                        fsm.len() == fs@.len(),
                        forall|k: int|
                            0 <= k < fs@.len() ==> fsm[k] == (#[trigger] fs@[k].0, fs@[k].1.model()),
                        WindowProcess::fold_fields(WindowProcess::empty_model(), fsm, 0)
                            == WindowProcess::fold_fields(out.model(), fsm, i as int),
                    decreases fs@.len() - i,
                {
                    let ghost before = out.model();
                    let (k, v) = &fs[i];
                    match k {
                        Key::Uuid => out.uuid = decode_opt_text(v),
                        Key::InternalId => out.internal_id = decode_opt_i32(v),
                        Key::Id => out.id = decode_opt_text(v),
                        Key::Name => out.name = decode_opt_text(v),
                        Key::Description => out.description = decode_opt_text(v),
                        Key::Help => out.help = decode_opt_text(v),
                        Key::IsReport => out.is_report = decode_opt_bool(v),
                        Key::IsMultiSelection => out.is_multi_selection = decode_opt_bool(v),
                        Key::BrowserId => out.browser_id = decode_opt_i32(v),
                        Key::Browser => out.browser = decode_opt_dictionary_entity(v),
                        Key::FormId => out.form_id = decode_opt_i32(v),
                        Key::Form => out.form = decode_opt_dictionary_entity(v),
                        Key::WorkflowId => out.workflow_id = decode_opt_i32(v),
                        Key::Workflow => out.workflow = decode_opt_dictionary_entity(v),
                        _ => {
                        },
                    }
                    proof {
                        assert(out.model() == WindowProcess::apply_field(before, fsm[i as int].0, fsm[i as int].1));
                    }
                    i = i + 1;
                }
                Option::Some(out)
            },
            _ => Option::None,
        }
    }
}

/// The model of an optional window process record.
pub open spec fn view_opt_window_process(o: Option<WindowProcess>) -> Option<WindowProcessModel> {
    match o {
        Option::None => Option::None,
        Option::Some(x) => Option::Some(x.model()),
    }
}

pub open spec fn enc_opt_window_process(o: Option<WindowProcessModel>) -> ValModel {
    match o {
        Option::None => ValModel::Null,
        Option::Some(m) => WindowProcess::enc(m),
    }
}

pub fn encode_opt_window_process(o: &Option<WindowProcess>) -> (r: Value)
    ensures
        r.model() == enc_opt_window_process(view_opt_window_process(*o)),
{
    match o {
        Option::None => Value::Null,
        Option::Some(x) => x.encode(),
    }
}

pub fn decode_opt_window_process(v: &Value) -> (r: Option<WindowProcess>)
    ensures
        view_opt_window_process(r) == WindowProcess::dec(v.model()),
{
    WindowProcess::decode(v)
}

/// Decoding inverts encoding for every window process record.
#[verifier::rlimit(100)]
pub proof fn lemma_window_process_round_trip(m: WindowProcessModel)
    ensures
        WindowProcess::dec(WindowProcess::enc(m)) == Option::Some(m),
{
    match m.browser {
        Option::Some(a) => lemma_dictionary_entity_round_trip(a),
        Option::None => {
        },
    }
    match m.form {
        Option::Some(a) => lemma_dictionary_entity_round_trip(a),
        Option::None => {
        },
    }
    match m.workflow {
        Option::Some(a) => lemma_dictionary_entity_round_trip(a),
        Option::None => {
        },
    }
    let fs = WindowProcess::enc(m)->Object_0;
    let s0 = WindowProcess::empty_model();
    let s1 = WindowProcess::apply_field(s0, fs[0].0, fs[0].1);
    let s2 = WindowProcess::apply_field(s1, fs[1].0, fs[1].1);
    let s3 = WindowProcess::apply_field(s2, fs[2].0, fs[2].1);
    let s4 = WindowProcess::apply_field(s3, fs[3].0, fs[3].1);
    let s5 = WindowProcess::apply_field(s4, fs[4].0, fs[4].1);
    let s6 = WindowProcess::apply_field(s5, fs[5].0, fs[5].1);
    let s7 = WindowProcess::apply_field(s6, fs[6].0, fs[6].1);
    let s8 = WindowProcess::apply_field(s7, fs[7].0, fs[7].1);
    let s9 = WindowProcess::apply_field(s8, fs[8].0, fs[8].1);
    let s10 = WindowProcess::apply_field(s9, fs[9].0, fs[9].1);
    let s11 = WindowProcess::apply_field(s10, fs[10].0, fs[10].1);
    let s12 = WindowProcess::apply_field(s11, fs[11].0, fs[11].1);
    let s13 = WindowProcess::apply_field(s12, fs[12].0, fs[12].1);
    let s14 = WindowProcess::apply_field(s13, fs[13].0, fs[13].1);
    assert(WindowProcess::fold_fields(s14, fs, 14) == s14);
    assert(WindowProcess::fold_fields(s13, fs, 13) == s14);
    assert(WindowProcess::fold_fields(s12, fs, 12) == s14);
    assert(WindowProcess::fold_fields(s11, fs, 11) == s14);
    assert(WindowProcess::fold_fields(s10, fs, 10) == s14);
    assert(WindowProcess::fold_fields(s9, fs, 9) == s14);
    assert(WindowProcess::fold_fields(s8, fs, 8) == s14);
    assert(WindowProcess::fold_fields(s7, fs, 7) == s14);
    assert(WindowProcess::fold_fields(s6, fs, 6) == s14);
    assert(WindowProcess::fold_fields(s5, fs, 5) == s14);
    assert(WindowProcess::fold_fields(s4, fs, 4) == s14);
    assert(WindowProcess::fold_fields(s3, fs, 3) == s14);
    assert(WindowProcess::fold_fields(s2, fs, 2) == s14);
    assert(WindowProcess::fold_fields(s1, fs, 1) == s14);
    assert(WindowProcess::fold_fields(s0, fs, 0) == s14);
    assert(s14 == m);
}

/// Encoding of a sequence of window process records.
pub open spec fn enc_window_processs(s: Seq<WindowProcessModel>) -> Seq<ValModel>
    decreases s,
{
    if s.len() == 0 {
        Seq::empty()
    } else {
        seq![WindowProcess::enc(s[0])] + enc_window_processs(s.drop_first())
    }
}

/// Decoding of a list of window process records; elements that do not
/// decode are ignored.
pub open spec fn dec_window_processs(items: Seq<ValModel>) -> Seq<WindowProcessModel>
    decreases items,
{
    if items.len() == 0 {
        Seq::empty()
    } else {
        match WindowProcess::dec(items[0]) {
            Option::Some(m) => seq![m] + dec_window_processs(items.drop_first()),
            Option::None => dec_window_processs(items.drop_first()),
        }
    }
}

pub open spec fn enc_opt_window_processs(o: Option<Seq<WindowProcessModel>>) -> ValModel {
    match o {
        Option::None => ValModel::Null,
        Option::Some(s) => ValModel::List(enc_window_processs(s)),
    }
}

pub open spec fn dec_opt_window_processs(v: ValModel) -> Option<Seq<WindowProcessModel>> {
    match v {
        ValModel::List(items) => Option::Some(dec_window_processs(items)),
        _ => Option::None,
    }
}

/// The model of an optional vector of window process records.
pub open spec fn view_opt_window_processs(o: Option<Vec<WindowProcess>>) -> Option<Seq<WindowProcessModel>> {
    match o {
        Option::None => Option::None,
        Option::Some(v) => Option::Some(Seq::new(v@.len(), |i: int| v@[i].model())),
    }
}

/// `enc_window_processs` indexes point-wise.
pub proof fn lemma_enc_window_processs_index(s: Seq<WindowProcessModel>)
    ensures
        enc_window_processs(s).len() == s.len(),
        forall|i: int| 0 <= i < s.len() ==> enc_window_processs(s)[i] == WindowProcess::enc(#[trigger] s[i]),
    decreases s,
{
    if s.len() > 0 {
        lemma_enc_window_processs_index(s.drop_first());
        assert forall|i: int| 0 <= i < s.len() implies enc_window_processs(s)[i] == WindowProcess::enc(
            #[trigger] s[i],
        ) by {
            if i > 0 {
                assert(s.drop_first()[i - 1] == s[i]);
                assert(enc_window_processs(s)[i] == enc_window_processs(s.drop_first())[i - 1]);
            }
        }
    }
}

/// List decode inverts list encode, element by element.
pub proof fn lemma_window_processs_round_trip(s: Seq<WindowProcessModel>)
    ensures
        dec_window_processs(enc_window_processs(s)) == s,
    decreases s,
{
    if s.len() == 0 {
        assert(dec_window_processs(enc_window_processs(s)) =~= s);
    } else {
        lemma_window_process_round_trip(s[0]);
        lemma_window_processs_round_trip(s.drop_first());
        assert(enc_window_processs(s).drop_first() =~= enc_window_processs(s.drop_first()));
        assert(seq![s[0]] + s.drop_first() =~= s);
    }
}

pub fn encode_opt_window_processs(o: &Option<Vec<WindowProcess>>) -> (r: Value)
    ensures
        r.model() == enc_opt_window_processs(view_opt_window_processs(*o)),
{
    match o {
        Option::None => Value::Null,
        Option::Some(v) => {
            let mut out: Vec<Value> = Vec::new();
            let mut i: usize = 0;
            while i < v.len()
                invariant
                    0 <= i <= v@.len(),
                    out@.len() == i,
                    forall|j: int| 0 <= j < i ==> #[trigger] out@[j].model() == WindowProcess::enc(v@[j].model()),
                decreases v@.len() - i,
            {
                out.push(v[i].encode());
                i = i + 1;
            }
            proof {
                let vs = view_opt_window_processs(*o)->Some_0;
                lemma_models_of(out@);
                lemma_enc_window_processs_index(vs);
                assert forall|j: int| 0 <= j < out@.len() implies Value::models_of(out@)[j]
                    == enc_window_processs(vs)[j] by {
                    assert(out@[j].model() == WindowProcess::enc(v@[j].model()));
                    assert(vs[j] == v@[j].model());
                }
                assert(Value::models_of(out@) =~= enc_window_processs(vs));
            }
            Value::List(out)
        },
    }
}

pub fn decode_opt_window_processs(v: &Value) -> (r: Option<Vec<WindowProcess>>)
    ensures
        view_opt_window_processs(r) == dec_opt_window_processs(v.model()),
{
    match v {
        Value::List(items) => {
            let mut out: Vec<WindowProcess> = Vec::new();
            let mut i: usize = 0;
            let ghost ms = Value::models_of(items@);
            proof {
                lemma_models_of(items@);
                assert(ms.subrange(0, ms.len() as int) =~= ms);
                assert(Seq::new(0, |j: int| out@[j].model()) + dec_window_processs(ms) =~= dec_window_processs(ms));
            }
            while i < items.len()
                invariant
                    0 <= i <= items@.len(),
                    ms == Value::models_of(items@),
                    ms.len() == items@.len(),
                    forall|k: int| 0 <= k < items@.len() ==> ms[k] == #[trigger] items@[k].model(),
                    dec_window_processs(ms) == Seq::new(out@.len(), |j: int| out@[j].model()) + dec_window_processs(
                        ms.subrange(i as int, ms.len() as int),
                    ),
                decreases items@.len() - i,
            {
                let ghost prev = Seq::new(out@.len(), |j: int| out@[j].model());
                let ghost rest = ms.subrange(i as int, ms.len() as int);
                proof {
                    assert(rest[0] == ms[i as int]);
                    assert(rest.drop_first() =~= ms.subrange(i + 1, ms.len() as int));
                    assert(ms[i as int] == items@[i as int].model());
                }
                match WindowProcess::decode(&items[i]) {
                    Option::Some(x) => {
                        out.push(x);
                        proof {
                            assert(Seq::new(out@.len(), |j: int| out@[j].model()) =~= prev
                                + seq![out@[out@.len() - 1].model()]);
                            assert(prev + seq![out@[out@.len() - 1].model()] + dec_window_processs(
                                ms.subrange(i + 1, ms.len() as int),
                            ) =~= prev + (seq![out@[out@.len() - 1].model()] + dec_window_processs(
                                ms.subrange(i + 1, ms.len() as int),
                            )));
                        }
                    },
                    Option::None => {
                    },
                }
                i = i + 1;
            }
            proof {
                assert(ms.subrange(ms.len() as int, ms.len() as int) =~= Seq::<ValModel>::empty());
                assert(dec_window_processs(ms) =~= Seq::new(out@.len(), |j: int| out@[j].model()));
            }
            Option::Some(out)
        },
        _ => Option::None,
    }
}


/// One window field, with its column, value, display, editable and
/// mandatory attributes.
#[derive(Debug, Clone)]
pub struct WindowField {
    pub uuid: Option<String>,
    pub id: Option<String>,
    pub internal_id: Option<i32>,
    pub name: Option<String>,
    pub description: Option<String>,
    pub help: Option<String>,
    pub column_name: Option<String>,
    pub display_type: Option<i32>,
    pub default_value: Option<String>,
    pub field_length: Option<i32>,
    pub sequence: Option<i32>,
    pub grid_sequence: Option<i32>,
    pub is_displayed: Option<bool>,
    pub display_logic: Option<String>,
    pub is_read_only: Option<bool>,
    pub read_only_logic: Option<String>,
    pub is_updateable: Option<bool>,
    pub is_always_updateable: Option<bool>,
    pub is_mandatory: Option<bool>,
    pub mandatory_logic: Option<String>,
    pub is_key: Option<bool>,
    pub context_column_names: Option<Vec<String>>,
    pub reference: Option<Reference>,
    pub dependent_fields: Option<Vec<DependendField>>,
}

/// The mathematical model of a [`WindowField`].
pub struct WindowFieldModel {
    pub uuid: Option<Seq<char>>,
    pub id: Option<Seq<char>>,
    pub internal_id: Option<i32>,
    pub name: Option<Seq<char>>,
    pub description: Option<Seq<char>>,
    pub help: Option<Seq<char>>,
    pub column_name: Option<Seq<char>>,
    pub display_type: Option<i32>,
    pub default_value: Option<Seq<char>>,
    pub field_length: Option<i32>,
    pub sequence: Option<i32>,
    pub grid_sequence: Option<i32>,
    pub is_displayed: Option<bool>,
    pub display_logic: Option<Seq<char>>,
    pub is_read_only: Option<bool>,
    pub read_only_logic: Option<Seq<char>>,
    pub is_updateable: Option<bool>,
    pub is_always_updateable: Option<bool>,
    pub is_mandatory: Option<bool>,
    pub mandatory_logic: Option<Seq<char>>,
    pub is_key: Option<bool>,
    pub context_column_names: Option<Seq<Seq<char>>>,
    pub reference: Option<ReferenceModel>,
    pub dependent_fields: Option<Seq<DependendFieldModel>>,
}

impl WindowField {
    pub open spec fn model(self) -> WindowFieldModel {
        WindowFieldModel {
            uuid: view_opt(self.uuid),
            id: view_opt(self.id),
            internal_id: self.internal_id,
            name: view_opt(self.name),
            description: view_opt(self.description),
            help: view_opt(self.help),
            column_name: view_opt(self.column_name),
            display_type: self.display_type,
            default_value: view_opt(self.default_value),
            field_length: self.field_length,
            sequence: self.sequence,
            grid_sequence: self.grid_sequence,
            is_displayed: self.is_displayed,
            display_logic: view_opt(self.display_logic),
            is_read_only: self.is_read_only,
            read_only_logic: view_opt(self.read_only_logic),
            is_updateable: self.is_updateable,
            is_always_updateable: self.is_always_updateable,
            is_mandatory: self.is_mandatory,
            mandatory_logic: view_opt(self.mandatory_logic),
            is_key: self.is_key,
            context_column_names: view_opt_texts(self.context_column_names),
            reference: view_opt_reference(self.reference),
            dependent_fields: view_opt_dependend_fields(self.dependent_fields),
        }
    }

    pub open spec fn empty_model() -> WindowFieldModel {
        WindowFieldModel {
            uuid: Option::None,
            id: Option::None,
            internal_id: Option::None,
            name: Option::None,
            description: Option::None,
            help: Option::None,
            column_name: Option::None,
            display_type: Option::None,
            default_value: Option::None,
            field_length: Option::None,
            sequence: Option::None,
            grid_sequence: Option::None,
            is_displayed: Option::None,
            display_logic: Option::None,
            is_read_only: Option::None,
            read_only_logic: Option::None,
            is_updateable: Option::None,
            is_always_updateable: Option::None,
            is_mandatory: Option::None,
            mandatory_logic: Option::None,
            is_key: Option::None,
            context_column_names: Option::None,
            reference: Option::None,
            dependent_fields: Option::None,
        }
    }

    /// The stored shape: every field present under its key, absent values
    /// as null.
    pub open spec fn enc(m: WindowFieldModel) -> ValModel {
        ValModel::Object(
            seq![
                (Key::Uuid, enc_opt_text(m.uuid)),
                (Key::Id, enc_opt_text(m.id)),
                (Key::InternalId, enc_opt_i32(m.internal_id)),
                (Key::Name, enc_opt_text(m.name)),
                (Key::Description, enc_opt_text(m.description)),
                (Key::Help, enc_opt_text(m.help)),
                (Key::ColumnName, enc_opt_text(m.column_name)),
                (Key::DisplayType, enc_opt_i32(m.display_type)),
                (Key::DefaultValue, enc_opt_text(m.default_value)),
                (Key::FieldLength, enc_opt_i32(m.field_length)),
                (Key::Sequence, enc_opt_i32(m.sequence)),
                (Key::GridSequence, enc_opt_i32(m.grid_sequence)),
                (Key::IsDisplayed, enc_opt_bool(m.is_displayed)),
                (Key::DisplayLogic, enc_opt_text(m.display_logic)),
                (Key::IsReadOnly, enc_opt_bool(m.is_read_only)),
                (Key::ReadOnlyLogic, enc_opt_text(m.read_only_logic)),
                (Key::IsUpdateable, enc_opt_bool(m.is_updateable)),
                (Key::IsAlwaysUpdateable, enc_opt_bool(m.is_always_updateable)),
                (Key::IsMandatory, enc_opt_bool(m.is_mandatory)),
                (Key::MandatoryLogic, enc_opt_text(m.mandatory_logic)),
                (Key::IsKey, enc_opt_bool(m.is_key)),
                (Key::ContextColumnNames, enc_opt_texts(m.context_column_names)),
                (Key::Reference, enc_opt_reference(m.reference)),
                (Key::DependentFields, enc_opt_dependend_fields(m.dependent_fields)),
            ],
        )
    }

    /// One decoding step: a recognized key sets its field; unknown keys are
    /// ignored.
    pub open spec fn apply_field(m: WindowFieldModel, k: Key, v: ValModel) -> WindowFieldModel {
        match k {
            Key::Uuid => WindowFieldModel { uuid: dec_opt_text(v), ..m },
            Key::Id => WindowFieldModel { id: dec_opt_text(v), ..m },
            Key::InternalId => WindowFieldModel { internal_id: dec_opt_i32(v), ..m },
            Key::Name => WindowFieldModel { name: dec_opt_text(v), ..m },
            Key::Description => WindowFieldModel { description: dec_opt_text(v), ..m },
            Key::Help => WindowFieldModel { help: dec_opt_text(v), ..m },
            Key::ColumnName => WindowFieldModel { column_name: dec_opt_text(v), ..m },
            Key::DisplayType => WindowFieldModel { display_type: dec_opt_i32(v), ..m },
            Key::DefaultValue => WindowFieldModel { default_value: dec_opt_text(v), ..m },
            Key::FieldLength => WindowFieldModel { field_length: dec_opt_i32(v), ..m },
            Key::Sequence => WindowFieldModel { sequence: dec_opt_i32(v), ..m },
            Key::GridSequence => WindowFieldModel { grid_sequence: dec_opt_i32(v), ..m },
            Key::IsDisplayed => WindowFieldModel { is_displayed: dec_opt_bool(v), ..m },
            Key::DisplayLogic => WindowFieldModel { display_logic: dec_opt_text(v), ..m },
            Key::IsReadOnly => WindowFieldModel { is_read_only: dec_opt_bool(v), ..m },
            Key::ReadOnlyLogic => WindowFieldModel { read_only_logic: dec_opt_text(v), ..m },
            Key::IsUpdateable => WindowFieldModel { is_updateable: dec_opt_bool(v), ..m },
            Key::IsAlwaysUpdateable => WindowFieldModel { is_always_updateable: dec_opt_bool(v), ..m },
            Key::IsMandatory => WindowFieldModel { is_mandatory: dec_opt_bool(v), ..m },
            Key::MandatoryLogic => WindowFieldModel { mandatory_logic: dec_opt_text(v), ..m },
            Key::IsKey => WindowFieldModel { is_key: dec_opt_bool(v), ..m },
            Key::ContextColumnNames => WindowFieldModel { context_column_names: dec_opt_texts(v), ..m },
            Key::Reference => WindowFieldModel { reference: Reference::dec(v), ..m },
            Key::DependentFields => WindowFieldModel { dependent_fields: dec_opt_dependend_fields(v), ..m },
            _ => m,
        }
    }

    pub open spec fn fold_fields(m: WindowFieldModel, fs: Seq<(Key, ValModel)>, i: int) -> WindowFieldModel
        decreases fs.len() - i,
    {
        if i < 0 || i >= fs.len() {
            m
        } else {
            WindowField::fold_fields(WindowField::apply_field(m, fs[i].0, fs[i].1), fs, i + 1)
        }
    }

    /// Decoding of a stored document into a model; only objects decode.
    pub open spec fn dec(v: ValModel) -> Option<WindowFieldModel> {
        match v {
            ValModel::Object(fs) => Option::Some(WindowField::fold_fields(WindowField::empty_model(), fs, 0)),
            _ => Option::None,
        }
    }

    pub fn empty() -> (r: WindowField)
        ensures
            r.model() == WindowField::empty_model(),
    {
        WindowField {
            uuid: Option::None,
            id: Option::None,
            internal_id: Option::None,
            name: Option::None,
            description: Option::None,
            help: Option::None,
            column_name: Option::None,
            display_type: Option::None,
            default_value: Option::None,
            field_length: Option::None,
            sequence: Option::None,
            grid_sequence: Option::None,
            is_displayed: Option::None,
            display_logic: Option::None,
            is_read_only: Option::None,
            read_only_logic: Option::None,
            is_updateable: Option::None,
            is_always_updateable: Option::None,
            is_mandatory: Option::None,
            mandatory_logic: Option::None,
            is_key: Option::None,
            context_column_names: Option::None,
            reference: Option::None,
            dependent_fields: Option::None,
        }
    }

    /// The stored payload of this record.
    pub fn encode(&self) -> (r: Value)
        ensures
            r.model() == WindowField::enc(self.model()),
    {
        let mut fs: Vec<(Key, Value)> = Vec::new();
        fs.push((Key::Uuid, encode_opt_text(&self.uuid)));
        fs.push((Key::Id, encode_opt_text(&self.id)));
        fs.push((Key::InternalId, encode_opt_i32(&self.internal_id)));
        fs.push((Key::Name, encode_opt_text(&self.name)));
        fs.push((Key::Description, encode_opt_text(&self.description)));
        fs.push((Key::Help, encode_opt_text(&self.help)));
        fs.push((Key::ColumnName, encode_opt_text(&self.column_name)));
        fs.push((Key::DisplayType, encode_opt_i32(&self.display_type)));
        fs.push((Key::DefaultValue, encode_opt_text(&self.default_value)));
        fs.push((Key::FieldLength, encode_opt_i32(&self.field_length)));
        fs.push((Key::Sequence, encode_opt_i32(&self.sequence)));
        fs.push((Key::GridSequence, encode_opt_i32(&self.grid_sequence)));
        fs.push((Key::IsDisplayed, encode_opt_bool(&self.is_displayed)));
        fs.push((Key::DisplayLogic, encode_opt_text(&self.display_logic)));
        fs.push((Key::IsReadOnly, encode_opt_bool(&self.is_read_only)));
        fs.push((Key::ReadOnlyLogic, encode_opt_text(&self.read_only_logic)));
        fs.push((Key::IsUpdateable, encode_opt_bool(&self.is_updateable)));
        fs.push((Key::IsAlwaysUpdateable, encode_opt_bool(&self.is_always_updateable)));
        fs.push((Key::IsMandatory, encode_opt_bool(&self.is_mandatory)));
        fs.push((Key::MandatoryLogic, encode_opt_text(&self.mandatory_logic)));
        fs.push((Key::IsKey, encode_opt_bool(&self.is_key)));
        fs.push((Key::ContextColumnNames, encode_opt_texts(&self.context_column_names)));
        fs.push((Key::Reference, encode_opt_reference(&self.reference)));
        fs.push((Key::DependentFields, encode_opt_dependend_fields(&self.dependent_fields)));
        proof {
            lemma_fields_of(fs@);
            let target = WindowField::enc(self.model())->Object_0;
            assert forall|j: int| 0 <= j < fs@.len() implies Value::fields_of(fs@)[j]
                == target[j] by {
                assert(Value::fields_of(fs@)[j] == (fs@[j].0, fs@[j].1.model()));
            }
            assert(Value::fields_of(fs@) =~= target);
        }
        Value::Object(fs)
    }

    /// Decoding of a stored document; inverse of [`WindowField::encode`] on the
    /// models.
    pub fn decode(v: &Value) -> (r: Option<WindowField>)
        ensures
            match (r, WindowField::dec(v.model())) {
                (Option::Some(x), Option::Some(m)) => x.model() == m,
                (Option::None, Option::None) => true,
                _ => false,
            },
    {
        match v {
            Value::Object(fs) => {
                let ghost fsm = Value::fields_of(fs@);
                proof {
                    lemma_fields_of(fs@);
                }
                let mut out = WindowField::empty();
                let mut i: usize = 0;
                while i < fs.len()
                    invariant
                        0 <= i <= fs@.len(),
                        fsm == Value::fields_of(fs@),
                        fsm.len() == fs@.len(),
                        forall|k: int|
                            0 <= k < fs@.len() ==> fsm[k] == (#[trigger] fs@[k].0, fs@[k].1.model()),
                        WindowField::fold_fields(WindowField::empty_model(), fsm, 0)
                            == WindowField::fold_fields(out.model(), fsm, i as int),
                    decreases fs@.len() - i,
                {
                    let ghost before = out.model();
                    let (k, v) = &fs[i];
                    match k {
                        Key::Uuid => out.uuid = decode_opt_text(v),
                        Key::Id => out.id = decode_opt_text(v),
                        Key::InternalId => out.internal_id = decode_opt_i32(v),
                        Key::Name => out.name = decode_opt_text(v),
                        Key::Description => out.description = decode_opt_text(v),
                        Key::Help => out.help = decode_opt_text(v),
                        Key::ColumnName => out.column_name = decode_opt_text(v),
                        Key::DisplayType => out.display_type = decode_opt_i32(v),
                        Key::DefaultValue => out.default_value = decode_opt_text(v),
                        Key::FieldLength => out.field_length = decode_opt_i32(v),
                        Key::Sequence => out.sequence = decode_opt_i32(v),
                        Key::GridSequence => out.grid_sequence = decode_opt_i32(v),
                        Key::IsDisplayed => out.is_displayed = decode_opt_bool(v),
                        Key::DisplayLogic => out.display_logic = decode_opt_text(v),
                        Key::IsReadOnly => out.is_read_only = decode_opt_bool(v),
                        Key::ReadOnlyLogic => out.read_only_logic = decode_opt_text(v),
                        Key::IsUpdateable => out.is_updateable = decode_opt_bool(v),
                        Key::IsAlwaysUpdateable => out.is_always_updateable = decode_opt_bool(v),
                        Key::IsMandatory => out.is_mandatory = decode_opt_bool(v),
                        Key::MandatoryLogic => out.mandatory_logic = decode_opt_text(v),
                        Key::IsKey => out.is_key = decode_opt_bool(v),
                        Key::ContextColumnNames => out.context_column_names = decode_opt_texts(v),
                        Key::Reference => out.reference = decode_opt_reference(v),
                        Key::DependentFields => out.dependent_fields = decode_opt_dependend_fields(v),
                        _ => {
                        },
                    }
                    proof {
                        assert(out.model() == WindowField::apply_field(before, fsm[i as int].0, fsm[i as int].1));
                    }
                    i = i + 1;
                }
                Option::Some(out)
            },
            _ => Option::None,
        }
    }
}

/// The model of an optional window field record.
pub open spec fn view_opt_window_field(o: Option<WindowField>) -> Option<WindowFieldModel> {
    match o {
        Option::None => Option::None,
        Option::Some(x) => Option::Some(x.model()),
    }
}

pub open spec fn enc_opt_window_field(o: Option<WindowFieldModel>) -> ValModel {
    match o {
        Option::None => ValModel::Null,
        Option::Some(m) => WindowField::enc(m),
    }
}

pub fn encode_opt_window_field(o: &Option<WindowField>) -> (r: Value)
    ensures
        r.model() == enc_opt_window_field(view_opt_window_field(*o)),
{
    match o {
        Option::None => Value::Null,
        Option::Some(x) => x.encode(),
    }
}

pub fn decode_opt_window_field(v: &Value) -> (r: Option<WindowField>)
    ensures
        view_opt_window_field(r) == WindowField::dec(v.model()),
{
    WindowField::decode(v)
}

/// Decoding inverts encoding for every window field record.
#[verifier::rlimit(100)]
pub proof fn lemma_window_field_round_trip(m: WindowFieldModel)
    ensures
        WindowField::dec(WindowField::enc(m)) == Option::Some(m),
{
    lemma_opt_texts_round_trip(m.context_column_names);
    match m.reference {
        Option::Some(a) => lemma_reference_round_trip(a),
        Option::None => {
        },
    }
    match m.dependent_fields {
        Option::Some(s) => lemma_dependend_fields_round_trip(s),
        Option::None => {
        },
    }
    let fs = WindowField::enc(m)->Object_0;
    let s0 = WindowField::empty_model();
    let s1 = WindowField::apply_field(s0, fs[0].0, fs[0].1);
    let s2 = WindowField::apply_field(s1, fs[1].0, fs[1].1);
    let s3 = WindowField::apply_field(s2, fs[2].0, fs[2].1);
    let s4 = WindowField::apply_field(s3, fs[3].0, fs[3].1);
    let s5 = WindowField::apply_field(s4, fs[4].0, fs[4].1);
    let s6 = WindowField::apply_field(s5, fs[5].0, fs[5].1);
    let s7 = WindowField::apply_field(s6, fs[6].0, fs[6].1);
    let s8 = WindowField::apply_field(s7, fs[7].0, fs[7].1);
    let s9 = WindowField::apply_field(s8, fs[8].0, fs[8].1);
    let s10 = WindowField::apply_field(s9, fs[9].0, fs[9].1);
    let s11 = WindowField::apply_field(s10, fs[10].0, fs[10].1);
    let s12 = WindowField::apply_field(s11, fs[11].0, fs[11].1);
    let s13 = WindowField::apply_field(s12, fs[12].0, fs[12].1);
    let s14 = WindowField::apply_field(s13, fs[13].0, fs[13].1);
    let s15 = WindowField::apply_field(s14, fs[14].0, fs[14].1);
    let s16 = WindowField::apply_field(s15, fs[15].0, fs[15].1);
    let s17 = WindowField::apply_field(s16, fs[16].0, fs[16].1);
    let s18 = WindowField::apply_field(s17, fs[17].0, fs[17].1);
    let s19 = WindowField::apply_field(s18, fs[18].0, fs[18].1);
    let s20 = WindowField::apply_field(s19, fs[19].0, fs[19].1);
    let s21 = WindowField::apply_field(s20, fs[20].0, fs[20].1);
    let s22 = WindowField::apply_field(s21, fs[21].0, fs[21].1);
    let s23 = WindowField::apply_field(s22, fs[22].0, fs[22].1);
    let s24 = WindowField::apply_field(s23, fs[23].0, fs[23].1);
    assert(WindowField::fold_fields(s24, fs, 24) == s24);
    assert(WindowField::fold_fields(s23, fs, 23) == s24);
    assert(WindowField::fold_fields(s22, fs, 22) == s24);
    assert(WindowField::fold_fields(s21, fs, 21) == s24);
    assert(WindowField::fold_fields(s20, fs, 20) == s24);
    assert(WindowField::fold_fields(s19, fs, 19) == s24);
    assert(WindowField::fold_fields(s18, fs, 18) == s24);
    assert(WindowField::fold_fields(s17, fs, 17) == s24);
    assert(WindowField::fold_fields(s16, fs, 16) == s24);
    assert(WindowField::fold_fields(s15, fs, 15) == s24);
    assert(WindowField::fold_fields(s14, fs, 14) == s24);
    assert(WindowField::fold_fields(s13, fs, 13) == s24);
    assert(WindowField::fold_fields(s12, fs, 12) == s24);
    assert(WindowField::fold_fields(s11, fs, 11) == s24);
    assert(WindowField::fold_fields(s10, fs, 10) == s24);
    assert(WindowField::fold_fields(s9, fs, 9) == s24);
    assert(WindowField::fold_fields(s8, fs, 8) == s24);
    assert(WindowField::fold_fields(s7, fs, 7) == s24);
    assert(WindowField::fold_fields(s6, fs, 6) == s24);
    assert(WindowField::fold_fields(s5, fs, 5) == s24);
    assert(WindowField::fold_fields(s4, fs, 4) == s24);
    assert(WindowField::fold_fields(s3, fs, 3) == s24);
    assert(WindowField::fold_fields(s2, fs, 2) == s24);
    assert(WindowField::fold_fields(s1, fs, 1) == s24);
    assert(WindowField::fold_fields(s0, fs, 0) == s24);
    assert(s24 == m);
}

/// Encoding of a sequence of window field records.
pub open spec fn enc_window_fields(s: Seq<WindowFieldModel>) -> Seq<ValModel>
    decreases s,
{
    if s.len() == 0 {
        Seq::empty()
    } else {
        seq![WindowField::enc(s[0])] + enc_window_fields(s.drop_first())
    }
}

/// Decoding of a list of window field records; elements that do not
/// decode are ignored.
pub open spec fn dec_window_fields(items: Seq<ValModel>) -> Seq<WindowFieldModel>
    decreases items,
{
    if items.len() == 0 {
        Seq::empty()
    } else {
        match WindowField::dec(items[0]) {
            Option::Some(m) => seq![m] + dec_window_fields(items.drop_first()),
            Option::None => dec_window_fields(items.drop_first()),
        }
    }
}

pub open spec fn enc_opt_window_fields(o: Option<Seq<WindowFieldModel>>) -> ValModel {
    match o {
        Option::None => ValModel::Null,
        Option::Some(s) => ValModel::List(enc_window_fields(s)),
    }
}

pub open spec fn dec_opt_window_fields(v: ValModel) -> Option<Seq<WindowFieldModel>> {
    match v {
        ValModel::List(items) => Option::Some(dec_window_fields(items)),
        _ => Option::None,
    }
}

/// The model of an optional vector of window field records.
pub open spec fn view_opt_window_fields(o: Option<Vec<WindowField>>) -> Option<Seq<WindowFieldModel>> {
    match o {
        Option::None => Option::None,
        Option::Some(v) => Option::Some(Seq::new(v@.len(), |i: int| v@[i].model())),
    }
}

/// `enc_window_fields` indexes point-wise.
pub proof fn lemma_enc_window_fields_index(s: Seq<WindowFieldModel>)
    ensures
        enc_window_fields(s).len() == s.len(),
        forall|i: int| 0 <= i < s.len() ==> enc_window_fields(s)[i] == WindowField::enc(#[trigger] s[i]),
    decreases s,
{
    if s.len() > 0 {
        lemma_enc_window_fields_index(s.drop_first());
        assert forall|i: int| 0 <= i < s.len() implies enc_window_fields(s)[i] == WindowField::enc(
            #[trigger] s[i],
        ) by {
            if i > 0 {
                assert(s.drop_first()[i - 1] == s[i]);
                assert(enc_window_fields(s)[i] == enc_window_fields(s.drop_first())[i - 1]);
            }
        }
    }
}

/// List decode inverts list encode, element by element.
pub proof fn lemma_window_fields_round_trip(s: Seq<WindowFieldModel>)
    ensures
        dec_window_fields(enc_window_fields(s)) == s,
    decreases s,
{
    if s.len() == 0 {
        assert(dec_window_fields(enc_window_fields(s)) =~= s);
    } else {
        lemma_window_field_round_trip(s[0]);
        lemma_window_fields_round_trip(s.drop_first());
        assert(enc_window_fields(s).drop_first() =~= enc_window_fields(s.drop_first()));
        assert(seq![s[0]] + s.drop_first() =~= s);
    }
}

pub fn encode_opt_window_fields(o: &Option<Vec<WindowField>>) -> (r: Value)
    ensures
        r.model() == enc_opt_window_fields(view_opt_window_fields(*o)),
{
    match o {
        Option::None => Value::Null,
        Option::Some(v) => {
            let mut out: Vec<Value> = Vec::new();
            let mut i: usize = 0;
            while i < v.len()
                invariant
                    0 <= i <= v@.len(),
                    out@.len() == i,
                    forall|j: int| 0 <= j < i ==> #[trigger] out@[j].model() == WindowField::enc(v@[j].model()),
                decreases v@.len() - i,
            {
                out.push(v[i].encode());
                i = i + 1;
            }
            proof {
                let vs = view_opt_window_fields(*o)->Some_0;
                lemma_models_of(out@);
                lemma_enc_window_fields_index(vs);
                assert forall|j: int| 0 <= j < out@.len() implies Value::models_of(out@)[j]
                    == enc_window_fields(vs)[j] by {
                    assert(out@[j].model() == WindowField::enc(v@[j].model()));
                    assert(vs[j] == v@[j].model());
                }
                assert(Value::models_of(out@) =~= enc_window_fields(vs));
            }
            Value::List(out)
        },
    }
}

pub fn decode_opt_window_fields(v: &Value) -> (r: Option<Vec<WindowField>>)
    ensures
        view_opt_window_fields(r) == dec_opt_window_fields(v.model()),
{
    match v {
        Value::List(items) => {
            let mut out: Vec<WindowField> = Vec::new();
            let mut i: usize = 0;
            let ghost ms = Value::models_of(items@);
            proof {
                lemma_models_of(items@);
                assert(ms.subrange(0, ms.len() as int) =~= ms);
                assert(Seq::new(0, |j: int| out@[j].model()) + dec_window_fields(ms) =~= dec_window_fields(ms));
            }
            while i < items.len()
                invariant
                    0 <= i <= items@.len(),
                    ms == Value::models_of(items@),
                    ms.len() == items@.len(),
                    forall|k: int| 0 <= k < items@.len() ==> ms[k] == #[trigger] items@[k].model(),
                    dec_window_fields(ms) == Seq::new(out@.len(), |j: int| out@[j].model()) + dec_window_fields(
                        ms.subrange(i as int, ms.len() as int),
                    ),
                decreases items@.len() - i,
            {
                let ghost prev = Seq::new(out@.len(), |j: int| out@[j].model());
                let ghost rest = ms.subrange(i as int, ms.len() as int);
                proof {
                    assert(rest[0] == ms[i as int]);
                    assert(rest.drop_first() =~= ms.subrange(i + 1, ms.len() as int));
                    assert(ms[i as int] == items@[i as int].model());
                }
                match WindowField::decode(&items[i]) {
                    Option::Some(x) => {
                        out.push(x);
                        proof {
                            assert(Seq::new(out@.len(), |j: int| out@[j].model()) =~= prev
                                + seq![out@[out@.len() - 1].model()]);
                            assert(prev + seq![out@[out@.len() - 1].model()] + dec_window_fields(
                                ms.subrange(i + 1, ms.len() as int),
                            ) =~= prev + (seq![out@[out@.len() - 1].model()] + dec_window_fields(
                                ms.subrange(i + 1, ms.len() as int),
                            )));
                        }
                    },
                    Option::None => {
                    },
                }
                i = i + 1;
            }
            proof {
                assert(ms.subrange(ms.len() as int, ms.len() as int) =~= Seq::<ValModel>::empty());
                assert(dec_window_fields(ms) =~= Seq::new(out@.len(), |j: int| out@[j].model()));
            }
            Option::Some(out)
        },
        _ => Option::None,
    }
}


/// One tab of a window: its table, its fields, and the processes
/// reachable from it.
#[derive(Debug, Clone)]
pub struct WindowTab {
    pub uuid: Option<String>,
    pub id: Option<String>,
    pub internal_id: Option<i32>,
    pub name: Option<String>,
    pub description: Option<String>,
    pub help: Option<String>,
    pub sequence: Option<i32>,
    pub tab_level: Option<i32>,
    pub is_read_only: Option<bool>,
    pub is_single_row: Option<bool>,
    pub display_logic: Option<String>,
    pub table_name: Option<String>,
    pub table: Option<Table>,
    pub context_column_names: Option<Vec<String>>,
    pub window_id: Option<i32>,
    pub process_id: Option<i32>,
    pub process_uuid: Option<String>,
    pub process: Option<WindowProcess>,
    pub processes_uuid: Option<Vec<String>>,
    pub processes: Option<Vec<WindowProcess>>,
    pub fields: Option<Vec<WindowField>>,
}

/// The mathematical model of a [`WindowTab`].
pub struct WindowTabModel {
    pub uuid: Option<Seq<char>>,
    pub id: Option<Seq<char>>,
    pub internal_id: Option<i32>,
    pub name: Option<Seq<char>>,
    pub description: Option<Seq<char>>,
    pub help: Option<Seq<char>>,
    pub sequence: Option<i32>,
    pub tab_level: Option<i32>,
    pub is_read_only: Option<bool>,
    pub is_single_row: Option<bool>,
    pub display_logic: Option<Seq<char>>,
    pub table_name: Option<Seq<char>>,
    pub table: Option<TableModel>,
    pub context_column_names: Option<Seq<Seq<char>>>,
    pub window_id: Option<i32>,
    pub process_id: Option<i32>,
    pub process_uuid: Option<Seq<char>>,
    pub process: Option<WindowProcessModel>,
    pub processes_uuid: Option<Seq<Seq<char>>>,
    pub processes: Option<Seq<WindowProcessModel>>,
    pub fields: Option<Seq<WindowFieldModel>>,
}

impl WindowTab {
    pub open spec fn model(self) -> WindowTabModel {
        WindowTabModel {
            uuid: view_opt(self.uuid),
            id: view_opt(self.id),
            internal_id: self.internal_id,
            name: view_opt(self.name),
            description: view_opt(self.description),
            help: view_opt(self.help),
            sequence: self.sequence,
            tab_level: self.tab_level,
            is_read_only: self.is_read_only,
            is_single_row: self.is_single_row,
            display_logic: view_opt(self.display_logic),
            table_name: view_opt(self.table_name),
            table: view_opt_table(self.table),
            context_column_names: view_opt_texts(self.context_column_names),
            window_id: self.window_id,
            process_id: self.process_id,
            process_uuid: view_opt(self.process_uuid),
            process: view_opt_window_process(self.process),
            processes_uuid: view_opt_texts(self.processes_uuid),
            processes: view_opt_window_processs(self.processes),
            fields: view_opt_window_fields(self.fields),
        }
    }

    pub open spec fn empty_model() -> WindowTabModel {
        WindowTabModel {
            uuid: Option::None,
            id: Option::None,
            internal_id: Option::None,
            name: Option::None,
            description: Option::None,
            help: Option::None,
            sequence: Option::None,
            tab_level: Option::None,
            is_read_only: Option::None,
            is_single_row: Option::None,
            display_logic: Option::None,
            table_name: Option::None,
            table: Option::None,
            context_column_names: Option::None,
            window_id: Option::None,
            process_id: Option::None,
            process_uuid: Option::None,
            process: Option::None,
            processes_uuid: Option::None,
            processes: Option::None,
            fields: Option::None,
        }
    }

    /// The stored shape: every field present under its key, absent values
    /// as null.
    pub open spec fn enc(m: WindowTabModel) -> ValModel {
        ValModel::Object(
            seq![
                (Key::Uuid, enc_opt_text(m.uuid)),
                (Key::Id, enc_opt_text(m.id)),
                (Key::InternalId, enc_opt_i32(m.internal_id)),
                (Key::Name, enc_opt_text(m.name)),
                (Key::Description, enc_opt_text(m.description)),
                (Key::Help, enc_opt_text(m.help)),
                (Key::Sequence, enc_opt_i32(m.sequence)),
                (Key::TabLevel, enc_opt_i32(m.tab_level)),
                (Key::IsReadOnly, enc_opt_bool(m.is_read_only)),
                (Key::IsSingleRow, enc_opt_bool(m.is_single_row)),
                (Key::DisplayLogic, enc_opt_text(m.display_logic)),
                (Key::TableName, enc_opt_text(m.table_name)),
                (Key::Table, enc_opt_table(m.table)),
                (Key::ContextColumnNames, enc_opt_texts(m.context_column_names)),
                (Key::WindowId, enc_opt_i32(m.window_id)),
                (Key::ProcessId, enc_opt_i32(m.process_id)),
                (Key::ProcessUuid, enc_opt_text(m.process_uuid)),
                (Key::Process, enc_opt_window_process(m.process)),
                (Key::ProcessesUuid, enc_opt_texts(m.processes_uuid)),
                (Key::Processes, enc_opt_window_processs(m.processes)),
                (Key::Fields, enc_opt_window_fields(m.fields)),
            ],
        )
    }

    /// One decoding step: a recognized key sets its field; unknown keys are
    /// ignored.
    pub open spec fn apply_field(m: WindowTabModel, k: Key, v: ValModel) -> WindowTabModel {
        match k {
            Key::Uuid => WindowTabModel { uuid: dec_opt_text(v), ..m },
            Key::Id => WindowTabModel { id: dec_opt_text(v), ..m },
            Key::InternalId => WindowTabModel { internal_id: dec_opt_i32(v), ..m },
            Key::Name => WindowTabModel { name: dec_opt_text(v), ..m },
            Key::Description => WindowTabModel { description: dec_opt_text(v), ..m },
            Key::Help => WindowTabModel { help: dec_opt_text(v), ..m },
            Key::Sequence => WindowTabModel { sequence: dec_opt_i32(v), ..m },
            Key::TabLevel => WindowTabModel { tab_level: dec_opt_i32(v), ..m },
            Key::IsReadOnly => WindowTabModel { is_read_only: dec_opt_bool(v), ..m },
            Key::IsSingleRow => WindowTabModel { is_single_row: dec_opt_bool(v), ..m },
            Key::DisplayLogic => WindowTabModel { display_logic: dec_opt_text(v), ..m },
            Key::TableName => WindowTabModel { table_name: dec_opt_text(v), ..m },
            Key::Table => WindowTabModel { table: Table::dec(v), ..m },
            Key::ContextColumnNames => WindowTabModel { context_column_names: dec_opt_texts(v), ..m },
            Key::WindowId => WindowTabModel { window_id: dec_opt_i32(v), ..m },
            Key::ProcessId => WindowTabModel { process_id: dec_opt_i32(v), ..m },
            Key::ProcessUuid => WindowTabModel { process_uuid: dec_opt_text(v), ..m },
            Key::Process => WindowTabModel { process: WindowProcess::dec(v), ..m },
            Key::ProcessesUuid => WindowTabModel { processes_uuid: dec_opt_texts(v), ..m },
            Key::Processes => WindowTabModel { processes: dec_opt_window_processs(v), ..m },
            Key::Fields => WindowTabModel { fields: dec_opt_window_fields(v), ..m },
            _ => m,
        }
    }

    pub open spec fn fold_fields(m: WindowTabModel, fs: Seq<(Key, ValModel)>, i: int) -> WindowTabModel
        decreases fs.len() - i,
    {
        if i < 0 || i >= fs.len() {
            m
        } else {
            WindowTab::fold_fields(WindowTab::apply_field(m, fs[i].0, fs[i].1), fs, i + 1)
        }
    }

    /// Decoding of a stored document into a model; only objects decode.
    pub open spec fn dec(v: ValModel) -> Option<WindowTabModel> {
        match v {
            ValModel::Object(fs) => Option::Some(WindowTab::fold_fields(WindowTab::empty_model(), fs, 0)),
            _ => Option::None,
        }
    }

    pub fn empty() -> (r: WindowTab)
        ensures
            r.model() == WindowTab::empty_model(),
    {
        WindowTab {
            uuid: Option::None,
            id: Option::None,
            internal_id: Option::None,
            name: Option::None,
            description: Option::None,
            help: Option::None,
            sequence: Option::None,
            tab_level: Option::None,
            is_read_only: Option::None,
            is_single_row: Option::None,
            display_logic: Option::None,
            table_name: Option::None,
            table: Option::None,
            context_column_names: Option::None,
            window_id: Option::None,
            process_id: Option::None,
            process_uuid: Option::None,
            process: Option::None,
            processes_uuid: Option::None,
            processes: Option::None,
            fields: Option::None,
        }
    }

    /// The stored payload of this record.
    pub fn encode(&self) -> (r: Value)
        ensures
            r.model() == WindowTab::enc(self.model()),
    {
        let mut fs: Vec<(Key, Value)> = Vec::new();
        fs.push((Key::Uuid, encode_opt_text(&self.uuid)));
        fs.push((Key::Id, encode_opt_text(&self.id)));
        fs.push((Key::InternalId, encode_opt_i32(&self.internal_id)));
        fs.push((Key::Name, encode_opt_text(&self.name)));
        fs.push((Key::Description, encode_opt_text(&self.description)));
        fs.push((Key::Help, encode_opt_text(&self.help)));
        fs.push((Key::Sequence, encode_opt_i32(&self.sequence)));
        fs.push((Key::TabLevel, encode_opt_i32(&self.tab_level)));
        fs.push((Key::IsReadOnly, encode_opt_bool(&self.is_read_only)));
        fs.push((Key::IsSingleRow, encode_opt_bool(&self.is_single_row)));
        fs.push((Key::DisplayLogic, encode_opt_text(&self.display_logic)));
        fs.push((Key::TableName, encode_opt_text(&self.table_name)));
        fs.push((Key::Table, encode_opt_table(&self.table)));
        fs.push((Key::ContextColumnNames, encode_opt_texts(&self.context_column_names)));
        fs.push((Key::WindowId, encode_opt_i32(&self.window_id)));
        fs.push((Key::ProcessId, encode_opt_i32(&self.process_id)));
        fs.push((Key::ProcessUuid, encode_opt_text(&self.process_uuid)));
        fs.push((Key::Process, encode_opt_window_process(&self.process)));
        fs.push((Key::ProcessesUuid, encode_opt_texts(&self.processes_uuid)));
        fs.push((Key::Processes, encode_opt_window_processs(&self.processes)));
        fs.push((Key::Fields, encode_opt_window_fields(&self.fields)));
        proof {
            lemma_fields_of(fs@);
            let target = WindowTab::enc(self.model())->Object_0;
            assert forall|j: int| 0 <= j < fs@.len() implies Value::fields_of(fs@)[j]
                == target[j] by {
                assert(Value::fields_of(fs@)[j] == (fs@[j].0, fs@[j].1.model()));
            }
            assert(Value::fields_of(fs@) =~= target);
        }
        Value::Object(fs)
    }

    /// Decoding of a stored document; inverse of [`WindowTab::encode`] on the
    /// models.
    pub fn decode(v: &Value) -> (r: Option<WindowTab>)
        ensures
            match (r, WindowTab::dec(v.model())) {
                (Option::Some(x), Option::Some(m)) => x.model() == m,
                (Option::None, Option::None) => true,
                _ => false,
            },
    {
        match v {
            Value::Object(fs) => {
                let ghost fsm = Value::fields_of(fs@);
                proof {
                    lemma_fields_of(fs@);
                }
                let mut out = WindowTab::empty();
                let mut i: usize = 0;
                while i < fs.len()
                    invariant
                        0 <= i <= fs@.len(),
                        fsm == Value::fields_of(fs@),
                        fsm.len() == fs@.len(),
                        forall|k: int|
                            0 <= k < fs@.len() ==> fsm[k] == (#[trigger] fs@[k].0, fs@[k].1.model()),
                        WindowTab::fold_fields(WindowTab::empty_model(), fsm, 0)
                            == WindowTab::fold_fields(out.model(), fsm, i as int),
                    decreases fs@.len() - i,
                {
                    let ghost before = out.model();
                    let (k, v) = &fs[i];
                    match k {
                        Key::Uuid => out.uuid = decode_opt_text(v),
                        Key::Id => out.id = decode_opt_text(v),
                        Key::InternalId => out.internal_id = decode_opt_i32(v),
                        Key::Name => out.name = decode_opt_text(v),
                        Key::Description => out.description = decode_opt_text(v),
                        Key::Help => out.help = decode_opt_text(v),
                        Key::Sequence => out.sequence = decode_opt_i32(v),
                        Key::TabLevel => out.tab_level = decode_opt_i32(v),
                        Key::IsReadOnly => out.is_read_only = decode_opt_bool(v),
                        Key::IsSingleRow => out.is_single_row = decode_opt_bool(v),
                        Key::DisplayLogic => out.display_logic = decode_opt_text(v),
                        Key::TableName => out.table_name = decode_opt_text(v),
                        Key::Table => out.table = decode_opt_table(v),
                        Key::ContextColumnNames => out.context_column_names = decode_opt_texts(v),
                        Key::WindowId => out.window_id = decode_opt_i32(v),
                        Key::ProcessId => out.process_id = decode_opt_i32(v),
                        Key::ProcessUuid => out.process_uuid = decode_opt_text(v),
                        Key::Process => out.process = decode_opt_window_process(v),
                        Key::ProcessesUuid => out.processes_uuid = decode_opt_texts(v),
                        Key::Processes => out.processes = decode_opt_window_processs(v),
                        Key::Fields => out.fields = decode_opt_window_fields(v),
                        _ => {
                        },
                    }
                    proof {
                        assert(out.model() == WindowTab::apply_field(before, fsm[i as int].0, fsm[i as int].1));
                    }
                    i = i + 1;
                }
                Option::Some(out)
            },
            _ => Option::None,
        }
    }
}

/// The model of an optional window tab record.
pub open spec fn view_opt_window_tab(o: Option<WindowTab>) -> Option<WindowTabModel> {
    match o {
        Option::None => Option::None,
        Option::Some(x) => Option::Some(x.model()),
    }
}

pub open spec fn enc_opt_window_tab(o: Option<WindowTabModel>) -> ValModel {
    match o {
        Option::None => ValModel::Null,
        Option::Some(m) => WindowTab::enc(m),
    }
}

pub fn encode_opt_window_tab(o: &Option<WindowTab>) -> (r: Value)
    ensures
        r.model() == enc_opt_window_tab(view_opt_window_tab(*o)),
{
    match o {
        Option::None => Value::Null,
        Option::Some(x) => x.encode(),
    }
}

pub fn decode_opt_window_tab(v: &Value) -> (r: Option<WindowTab>)
    ensures
        view_opt_window_tab(r) == WindowTab::dec(v.model()),
{
    WindowTab::decode(v)
}

/// Decoding inverts encoding for every window tab record.
#[verifier::rlimit(100)]
pub proof fn lemma_window_tab_round_trip(m: WindowTabModel)
    ensures
        WindowTab::dec(WindowTab::enc(m)) == Option::Some(m),
{
    match m.table {
        Option::Some(a) => lemma_table_round_trip(a),
        Option::None => {
        },
    }
    lemma_opt_texts_round_trip(m.context_column_names);
    match m.process {
        Option::Some(a) => lemma_window_process_round_trip(a),
        Option::None => {
        },
    }
    lemma_opt_texts_round_trip(m.processes_uuid);
    match m.processes {
        Option::Some(s) => lemma_window_processs_round_trip(s),
        Option::None => {
        },
    }
    match m.fields {
        Option::Some(s) => lemma_window_fields_round_trip(s),
        Option::None => {
        },
    }
    let fs = WindowTab::enc(m)->Object_0;
    let s0 = WindowTab::empty_model();
    let s1 = WindowTab::apply_field(s0, fs[0].0, fs[0].1);
    let s2 = WindowTab::apply_field(s1, fs[1].0, fs[1].1);
    let s3 = WindowTab::apply_field(s2, fs[2].0, fs[2].1);
    let s4 = WindowTab::apply_field(s3, fs[3].0, fs[3].1);
    let s5 = WindowTab::apply_field(s4, fs[4].0, fs[4].1);
    let s6 = WindowTab::apply_field(s5, fs[5].0, fs[5].1);
    let s7 = WindowTab::apply_field(s6, fs[6].0, fs[6].1);
    let s8 = WindowTab::apply_field(s7, fs[7].0, fs[7].1);
    let s9 = WindowTab::apply_field(s8, fs[8].0, fs[8].1);
    let s10 = WindowTab::apply_field(s9, fs[9].0, fs[9].1);
    let s11 = WindowTab::apply_field(s10, fs[10].0, fs[10].1);
    let s12 = WindowTab::apply_field(s11, fs[11].0, fs[11].1);
    let s13 = WindowTab::apply_field(s12, fs[12].0, fs[12].1);
    let s14 = WindowTab::apply_field(s13, fs[13].0, fs[13].1);
    let s15 = WindowTab::apply_field(s14, fs[14].0, fs[14].1);
    let s16 = WindowTab::apply_field(s15, fs[15].0, fs[15].1);
    let s17 = WindowTab::apply_field(s16, fs[16].0, fs[16].1);
    let s18 = WindowTab::apply_field(s17, fs[17].0, fs[17].1);
    let s19 = WindowTab::apply_field(s18, fs[18].0, fs[18].1);
    let s20 = WindowTab::apply_field(s19, fs[19].0, fs[19].1);
    let s21 = WindowTab::apply_field(s20, fs[20].0, fs[20].1);
    assert(WindowTab::fold_fields(s21, fs, 21) == s21);
    assert(WindowTab::fold_fields(s20, fs, 20) == s21);
    assert(WindowTab::fold_fields(s19, fs, 19) == s21);
    assert(WindowTab::fold_fields(s18, fs, 18) == s21);
    assert(WindowTab::fold_fields(s17, fs, 17) == s21);
    assert(WindowTab::fold_fields(s16, fs, 16) == s21);
    assert(WindowTab::fold_fields(s15, fs, 15) == s21);
    assert(WindowTab::fold_fields(s14, fs, 14) == s21);
    assert(WindowTab::fold_fields(s13, fs, 13) == s21);
    assert(WindowTab::fold_fields(s12, fs, 12) == s21);
    assert(WindowTab::fold_fields(s11, fs, 11) == s21);
    assert(WindowTab::fold_fields(s10, fs, 10) == s21);
    assert(WindowTab::fold_fields(s9, fs, 9) == s21);
    assert(WindowTab::fold_fields(s8, fs, 8) == s21);
    assert(WindowTab::fold_fields(s7, fs, 7) == s21);
    assert(WindowTab::fold_fields(s6, fs, 6) == s21);
    assert(WindowTab::fold_fields(s5, fs, 5) == s21);
    assert(WindowTab::fold_fields(s4, fs, 4) == s21);
    assert(WindowTab::fold_fields(s3, fs, 3) == s21);
    assert(WindowTab::fold_fields(s2, fs, 2) == s21);
    assert(WindowTab::fold_fields(s1, fs, 1) == s21);
    assert(WindowTab::fold_fields(s0, fs, 0) == s21);
    assert(s21 == m);
}

/// Encoding of a sequence of window tab records.
pub open spec fn enc_window_tabs(s: Seq<WindowTabModel>) -> Seq<ValModel>
    decreases s,
{
    if s.len() == 0 {
        Seq::empty()
    } else {
        seq![WindowTab::enc(s[0])] + enc_window_tabs(s.drop_first())
    }
}

/// Decoding of a list of window tab records; elements that do not
/// decode are ignored.
pub open spec fn dec_window_tabs(items: Seq<ValModel>) -> Seq<WindowTabModel>
    decreases items,
{
    if items.len() == 0 {
        Seq::empty()
    } else {
        match WindowTab::dec(items[0]) {
            Option::Some(m) => seq![m] + dec_window_tabs(items.drop_first()),
            Option::None => dec_window_tabs(items.drop_first()),
        }
    }
}

pub open spec fn enc_opt_window_tabs(o: Option<Seq<WindowTabModel>>) -> ValModel {
    match o {
        Option::None => ValModel::Null,
        Option::Some(s) => ValModel::List(enc_window_tabs(s)),
    }
}

pub open spec fn dec_opt_window_tabs(v: ValModel) -> Option<Seq<WindowTabModel>> {
    match v {
        ValModel::List(items) => Option::Some(dec_window_tabs(items)),
        _ => Option::None,
    }
}

/// The model of an optional vector of window tab records.
pub open spec fn view_opt_window_tabs(o: Option<Vec<WindowTab>>) -> Option<Seq<WindowTabModel>> {
    match o {
        Option::None => Option::None,
        Option::Some(v) => Option::Some(Seq::new(v@.len(), |i: int| v@[i].model())),
    }
}

/// `enc_window_tabs` indexes point-wise.
pub proof fn lemma_enc_window_tabs_index(s: Seq<WindowTabModel>)
    ensures
        enc_window_tabs(s).len() == s.len(),
        forall|i: int| 0 <= i < s.len() ==> enc_window_tabs(s)[i] == WindowTab::enc(#[trigger] s[i]),
    decreases s,
{
    if s.len() > 0 {
        lemma_enc_window_tabs_index(s.drop_first());
        assert forall|i: int| 0 <= i < s.len() implies enc_window_tabs(s)[i] == WindowTab::enc(
            #[trigger] s[i],
        ) by {
            if i > 0 {
                assert(s.drop_first()[i - 1] == s[i]);
                assert(enc_window_tabs(s)[i] == enc_window_tabs(s.drop_first())[i - 1]);
            }
        }
    }
}

/// List decode inverts list encode, element by element.
pub proof fn lemma_window_tabs_round_trip(s: Seq<WindowTabModel>)
    ensures
        dec_window_tabs(enc_window_tabs(s)) == s,
    decreases s,
{
    if s.len() == 0 {
        assert(dec_window_tabs(enc_window_tabs(s)) =~= s);
    } else {
        lemma_window_tab_round_trip(s[0]);
        lemma_window_tabs_round_trip(s.drop_first());
        assert(enc_window_tabs(s).drop_first() =~= enc_window_tabs(s.drop_first()));
        assert(seq![s[0]] + s.drop_first() =~= s);
    }
}

pub fn encode_opt_window_tabs(o: &Option<Vec<WindowTab>>) -> (r: Value)
    ensures
        r.model() == enc_opt_window_tabs(view_opt_window_tabs(*o)),
{
    match o {
        Option::None => Value::Null,
        Option::Some(v) => {
            let mut out: Vec<Value> = Vec::new();
            let mut i: usize = 0;
            while i < v.len()
                invariant
                    0 <= i <= v@.len(),
                    out@.len() == i,
                    forall|j: int| 0 <= j < i ==> #[trigger] out@[j].model() == WindowTab::enc(v@[j].model()),
                decreases v@.len() - i,
            {
                out.push(v[i].encode());
                i = i + 1;
            }
            proof {
                let vs = view_opt_window_tabs(*o)->Some_0;
                lemma_models_of(out@);
                lemma_enc_window_tabs_index(vs);
                assert forall|j: int| 0 <= j < out@.len() implies Value::models_of(out@)[j]
                    == enc_window_tabs(vs)[j] by {
                    assert(out@[j].model() == WindowTab::enc(v@[j].model()));
                    assert(vs[j] == v@[j].model());
                }
                assert(Value::models_of(out@) =~= enc_window_tabs(vs));
            }
            Value::List(out)
        },
    }
}

pub fn decode_opt_window_tabs(v: &Value) -> (r: Option<Vec<WindowTab>>)
    ensures
        view_opt_window_tabs(r) == dec_opt_window_tabs(v.model()),
{
    match v {
        Value::List(items) => {
            let mut out: Vec<WindowTab> = Vec::new();
            let mut i: usize = 0;
            let ghost ms = Value::models_of(items@);
            proof {
                lemma_models_of(items@);
                assert(ms.subrange(0, ms.len() as int) =~= ms);
                assert(Seq::new(0, |j: int| out@[j].model()) + dec_window_tabs(ms) =~= dec_window_tabs(ms));
            }
            while i < items.len()
                invariant
                    0 <= i <= items@.len(),
                    ms == Value::models_of(items@),
                    ms.len() == items@.len(),
                    forall|k: int| 0 <= k < items@.len() ==> ms[k] == #[trigger] items@[k].model(),
                    dec_window_tabs(ms) == Seq::new(out@.len(), |j: int| out@[j].model()) + dec_window_tabs(
                        ms.subrange(i as int, ms.len() as int),
                    ),
                decreases items@.len() - i,
            {
                let ghost prev = Seq::new(out@.len(), |j: int| out@[j].model());
                let ghost rest = ms.subrange(i as int, ms.len() as int);
                proof {
                    assert(rest[0] == ms[i as int]);
                    assert(rest.drop_first() =~= ms.subrange(i + 1, ms.len() as int));
                    assert(ms[i as int] == items@[i as int].model());
                }
                match WindowTab::decode(&items[i]) {
                    Option::Some(x) => {
                        out.push(x);
                        proof {
                            assert(Seq::new(out@.len(), |j: int| out@[j].model()) =~= prev
                                + seq![out@[out@.len() - 1].model()]);
                            assert(prev + seq![out@[out@.len() - 1].model()] + dec_window_tabs(
                                ms.subrange(i + 1, ms.len() as int),
                            ) =~= prev + (seq![out@[out@.len() - 1].model()] + dec_window_tabs(
                                ms.subrange(i + 1, ms.len() as int),
                            )));
                        }
                    },
                    Option::None => {
                    },
                }
                i = i + 1;
            }
            proof {
                assert(ms.subrange(ms.len() as int, ms.len() as int) =~= Seq::<ValModel>::empty());
                assert(dec_window_tabs(ms) =~= Seq::new(out@.len(), |j: int| out@[j].model()));
            }
            Option::Some(out)
        },
        _ => Option::None,
    }
}


/// A window dictionary object and its tabs.
#[derive(Debug, Clone)]
pub struct Window {
    pub uuid: Option<String>,
    pub internal_id: Option<i32>,
    pub id: Option<String>,
    pub name: Option<String>,
    pub description: Option<String>,
    pub help: Option<String>,
    pub is_active: Option<bool>,
    pub is_beta_functionality: Option<bool>,
    pub window_type: Option<String>,
    pub is_sales_transaction: Option<bool>,
    pub index_value: Option<String>,
    pub language: Option<String>,
    pub client_id: Option<String>,
    pub role_id: Option<String>,
    pub user_id: Option<String>,
    pub tabs: Option<Vec<WindowTab>>,
}

/// The mathematical model of a [`Window`].
pub struct WindowModel {
    pub uuid: Option<Seq<char>>,
    pub internal_id: Option<i32>,
    pub id: Option<Seq<char>>,
    pub name: Option<Seq<char>>,
    pub description: Option<Seq<char>>,
    pub help: Option<Seq<char>>,
    pub is_active: Option<bool>,
    pub is_beta_functionality: Option<bool>,
    pub window_type: Option<Seq<char>>,
    pub is_sales_transaction: Option<bool>,
    pub index_value: Option<Seq<char>>,
    pub language: Option<Seq<char>>,
    pub client_id: Option<Seq<char>>,
    pub role_id: Option<Seq<char>>,
    pub user_id: Option<Seq<char>>,
    pub tabs: Option<Seq<WindowTabModel>>,
}

impl Window {
    pub open spec fn model(self) -> WindowModel {
        WindowModel {
            uuid: view_opt(self.uuid),
            internal_id: self.internal_id,
            id: view_opt(self.id),
            name: view_opt(self.name),
            description: view_opt(self.description),
            help: view_opt(self.help),
            is_active: self.is_active,
            is_beta_functionality: self.is_beta_functionality,
            window_type: view_opt(self.window_type),
            is_sales_transaction: self.is_sales_transaction,
            index_value: view_opt(self.index_value),
            language: view_opt(self.language),
            client_id: view_opt(self.client_id),
            role_id: view_opt(self.role_id),
            user_id: view_opt(self.user_id),
            tabs: view_opt_window_tabs(self.tabs),
        }
    }

    pub open spec fn empty_model() -> WindowModel {
        WindowModel {
            uuid: Option::None,
            internal_id: Option::None,
            id: Option::None,
            name: Option::None,
            description: Option::None,
            help: Option::None,
            is_active: Option::None,
            is_beta_functionality: Option::None,
            window_type: Option::None,
            is_sales_transaction: Option::None,
            index_value: Option::None,
            language: Option::None,
            client_id: Option::None,
            role_id: Option::None,
            user_id: Option::None,
            tabs: Option::None,
        }
    }

    /// The stored shape: every field present under its key, absent values
    /// as null.
    pub open spec fn enc(m: WindowModel) -> ValModel {
        ValModel::Object(
            seq![
                (Key::Uuid, enc_opt_text(m.uuid)),
                (Key::InternalId, enc_opt_i32(m.internal_id)),
                (Key::Id, enc_opt_text(m.id)),
                (Key::Name, enc_opt_text(m.name)),
                (Key::Description, enc_opt_text(m.description)),
                (Key::Help, enc_opt_text(m.help)),
                (Key::IsActive, enc_opt_bool(m.is_active)),
                (Key::IsBetaFunctionality, enc_opt_bool(m.is_beta_functionality)),
                (Key::WindowType, enc_opt_text(m.window_type)),
                (Key::IsSalesTransaction, enc_opt_bool(m.is_sales_transaction)),
                (Key::IndexValue, enc_opt_text(m.index_value)),
                (Key::Language, enc_opt_text(m.language)),
                (Key::ClientId, enc_opt_text(m.client_id)),
                (Key::RoleId, enc_opt_text(m.role_id)),
                (Key::UserId, enc_opt_text(m.user_id)),
                (Key::Tabs, enc_opt_window_tabs(m.tabs)),
            ],
        )
    }

    /// One decoding step: a recognized key sets its field; unknown keys are
    /// ignored.
    pub open spec fn apply_field(m: WindowModel, k: Key, v: ValModel) -> WindowModel {
        match k {
            Key::Uuid => WindowModel { uuid: dec_opt_text(v), ..m },
            Key::InternalId => WindowModel { internal_id: dec_opt_i32(v), ..m },
            Key::Id => WindowModel { id: dec_opt_text(v), ..m },
            Key::Name => WindowModel { name: dec_opt_text(v), ..m },
            Key::Description => WindowModel { description: dec_opt_text(v), ..m },
            Key::Help => WindowModel { help: dec_opt_text(v), ..m },
            Key::IsActive => WindowModel { is_active: dec_opt_bool(v), ..m },
            Key::IsBetaFunctionality => WindowModel { is_beta_functionality: dec_opt_bool(v), ..m },
            Key::WindowType => WindowModel { window_type: dec_opt_text(v), ..m },
            Key::IsSalesTransaction => WindowModel { is_sales_transaction: dec_opt_bool(v), ..m },
            Key::IndexValue => WindowModel { index_value: dec_opt_text(v), ..m },
            Key::Language => WindowModel { language: dec_opt_text(v), ..m },
            Key::ClientId => WindowModel { client_id: dec_opt_text(v), ..m },
            Key::RoleId => WindowModel { role_id: dec_opt_text(v), ..m },
            Key::UserId => WindowModel { user_id: dec_opt_text(v), ..m },
            Key::Tabs => WindowModel { tabs: dec_opt_window_tabs(v), ..m },
            _ => m,
        }
    }

    pub open spec fn fold_fields(m: WindowModel, fs: Seq<(Key, ValModel)>, i: int) -> WindowModel
        decreases fs.len() - i,
    {
        if i < 0 || i >= fs.len() {
            m
        } else {
            Window::fold_fields(Window::apply_field(m, fs[i].0, fs[i].1), fs, i + 1)
        }
    }

    /// Decoding of a stored document into a model; only objects decode.
    pub open spec fn dec(v: ValModel) -> Option<WindowModel> {
        match v {
            ValModel::Object(fs) => Option::Some(Window::fold_fields(Window::empty_model(), fs, 0)),
            _ => Option::None,
        }
    }

    pub fn empty() -> (r: Window)
        ensures
            r.model() == Window::empty_model(),
    {
        Window {
            uuid: Option::None,
            internal_id: Option::None,
            id: Option::None,
            name: Option::None,
            description: Option::None,
            help: Option::None,
            is_active: Option::None,
            is_beta_functionality: Option::None,
            window_type: Option::None,
            is_sales_transaction: Option::None,
            index_value: Option::None,
            language: Option::None,
            client_id: Option::None,
            role_id: Option::None,
            user_id: Option::None,
            tabs: Option::None,
        }
    }

    /// The stored payload of this record.
    pub fn encode(&self) -> (r: Value)
        ensures
            r.model() == Window::enc(self.model()),
    {
        let mut fs: Vec<(Key, Value)> = Vec::new();
        fs.push((Key::Uuid, encode_opt_text(&self.uuid)));
        fs.push((Key::InternalId, encode_opt_i32(&self.internal_id)));
        fs.push((Key::Id, encode_opt_text(&self.id)));
        fs.push((Key::Name, encode_opt_text(&self.name)));
        fs.push((Key::Description, encode_opt_text(&self.description)));
        fs.push((Key::Help, encode_opt_text(&self.help)));
        fs.push((Key::IsActive, encode_opt_bool(&self.is_active)));
        fs.push((Key::IsBetaFunctionality, encode_opt_bool(&self.is_beta_functionality)));
        fs.push((Key::WindowType, encode_opt_text(&self.window_type)));
        fs.push((Key::IsSalesTransaction, encode_opt_bool(&self.is_sales_transaction)));
        fs.push((Key::IndexValue, encode_opt_text(&self.index_value)));
        fs.push((Key::Language, encode_opt_text(&self.language)));
        fs.push((Key::ClientId, encode_opt_text(&self.client_id)));
        fs.push((Key::RoleId, encode_opt_text(&self.role_id)));
        fs.push((Key::UserId, encode_opt_text(&self.user_id)));
        fs.push((Key::Tabs, encode_opt_window_tabs(&self.tabs)));
        proof {
            lemma_fields_of(fs@);
            let target = Window::enc(self.model())->Object_0;
            assert forall|j: int| 0 <= j < fs@.len() implies Value::fields_of(fs@)[j]
                == target[j] by {
                assert(Value::fields_of(fs@)[j] == (fs@[j].0, fs@[j].1.model()));
            }
            assert(Value::fields_of(fs@) =~= target);
        }
        Value::Object(fs)
    }

    /// Decoding of a stored document; inverse of [`Window::encode`] on the
    /// models.
    pub fn decode(v: &Value) -> (r: Option<Window>)
        ensures
            match (r, Window::dec(v.model())) {
                (Option::Some(x), Option::Some(m)) => x.model() == m,
                (Option::None, Option::None) => true,
                _ => false,
            },
    {
        match v {
            Value::Object(fs) => {
                let ghost fsm = Value::fields_of(fs@);
                proof {
                    lemma_fields_of(fs@);
                }
                let mut out = Window::empty();
                let mut i: usize = 0;
                while i < fs.len()
                    invariant
                        0 <= i <= fs@.len(),
                        fsm == Value::fields_of(fs@),
                        fsm.len() == fs@.len(),
                        forall|k: int|
                            0 <= k < fs@.len() ==> fsm[k] == (#[trigger] fs@[k].0, fs@[k].1.model()),
                        Window::fold_fields(Window::empty_model(), fsm, 0)
                            == Window::fold_fields(out.model(), fsm, i as int),
                    decreases fs@.len() - i,
                {
                    let ghost before = out.model();
                    let (k, v) = &fs[i];
                    match k {
                        Key::Uuid => out.uuid = decode_opt_text(v),
                        Key::InternalId => out.internal_id = decode_opt_i32(v),
                        Key::Id => out.id = decode_opt_text(v),
                        Key::Name => out.name = decode_opt_text(v),
                        Key::Description => out.description = decode_opt_text(v),
                        Key::Help => out.help = decode_opt_text(v),
                        Key::IsActive => out.is_active = decode_opt_bool(v),
                        Key::IsBetaFunctionality => out.is_beta_functionality = decode_opt_bool(v),
                        Key::WindowType => out.window_type = decode_opt_text(v),
                        Key::IsSalesTransaction => out.is_sales_transaction = decode_opt_bool(v),
                        Key::IndexValue => out.index_value = decode_opt_text(v),
                        Key::Language => out.language = decode_opt_text(v),
                        Key::ClientId => out.client_id = decode_opt_text(v),
                        Key::RoleId => out.role_id = decode_opt_text(v),
                        Key::UserId => out.user_id = decode_opt_text(v),
                        Key::Tabs => out.tabs = decode_opt_window_tabs(v),
                        _ => {
                        },
                    }
                    proof {
                        assert(out.model() == Window::apply_field(before, fsm[i as int].0, fsm[i as int].1));
                    }
                    i = i + 1;
                }
                Option::Some(out)
            },
            _ => Option::None,
        }
    }
}

/// The model of an optional window record.
pub open spec fn view_opt_window(o: Option<Window>) -> Option<WindowModel> {
    match o {
        Option::None => Option::None,
        Option::Some(x) => Option::Some(x.model()),
    }
}

pub open spec fn enc_opt_window(o: Option<WindowModel>) -> ValModel {
    match o {
        Option::None => ValModel::Null,
        Option::Some(m) => Window::enc(m),
    }
}

pub fn encode_opt_window(o: &Option<Window>) -> (r: Value)
    ensures
        r.model() == enc_opt_window(view_opt_window(*o)),
{
    match o {
        Option::None => Value::Null,
        Option::Some(x) => x.encode(),
    }
}

pub fn decode_opt_window(v: &Value) -> (r: Option<Window>)
    ensures
        view_opt_window(r) == Window::dec(v.model()),
{
    Window::decode(v)
}

/// Decoding inverts encoding for every window record.
#[verifier::rlimit(100)]
pub proof fn lemma_window_round_trip(m: WindowModel)
    ensures
        Window::dec(Window::enc(m)) == Option::Some(m),
{
    match m.tabs {
        Option::Some(s) => lemma_window_tabs_round_trip(s),
        Option::None => {
        },
    }
    let fs = Window::enc(m)->Object_0;
    let s0 = Window::empty_model();
    let s1 = Window::apply_field(s0, fs[0].0, fs[0].1);
    let s2 = Window::apply_field(s1, fs[1].0, fs[1].1);
    let s3 = Window::apply_field(s2, fs[2].0, fs[2].1);
    let s4 = Window::apply_field(s3, fs[3].0, fs[3].1);
    let s5 = Window::apply_field(s4, fs[4].0, fs[4].1);
    let s6 = Window::apply_field(s5, fs[5].0, fs[5].1);
    let s7 = Window::apply_field(s6, fs[6].0, fs[6].1);
    let s8 = Window::apply_field(s7, fs[7].0, fs[7].1);
    let s9 = Window::apply_field(s8, fs[8].0, fs[8].1);
    let s10 = Window::apply_field(s9, fs[9].0, fs[9].1);
    let s11 = Window::apply_field(s10, fs[10].0, fs[10].1);
    let s12 = Window::apply_field(s11, fs[11].0, fs[11].1);
    let s13 = Window::apply_field(s12, fs[12].0, fs[12].1);
    let s14 = Window::apply_field(s13, fs[13].0, fs[13].1);
    let s15 = Window::apply_field(s14, fs[14].0, fs[14].1);
    let s16 = Window::apply_field(s15, fs[15].0, fs[15].1);
    assert(Window::fold_fields(s16, fs, 16) == s16);
    assert(Window::fold_fields(s15, fs, 15) == s16);
    assert(Window::fold_fields(s14, fs, 14) == s16);
    assert(Window::fold_fields(s13, fs, 13) == s16);
    assert(Window::fold_fields(s12, fs, 12) == s16);
    assert(Window::fold_fields(s11, fs, 11) == s16);
    assert(Window::fold_fields(s10, fs, 10) == s16);
    assert(Window::fold_fields(s9, fs, 9) == s16);
    assert(Window::fold_fields(s8, fs, 8) == s16);
    assert(Window::fold_fields(s7, fs, 7) == s16);
    assert(Window::fold_fields(s6, fs, 6) == s16);
    assert(Window::fold_fields(s5, fs, 5) == s16);
    assert(Window::fold_fields(s4, fs, 4) == s16);
    assert(Window::fold_fields(s3, fs, 3) == s16);
    assert(Window::fold_fields(s2, fs, 2) == s16);
    assert(Window::fold_fields(s1, fs, 1) == s16);
    assert(Window::fold_fields(s0, fs, 0) == s16);
    assert(s16 == m);
}

/// The CDC envelope around one window record.
#[derive(Debug)]
pub struct WindowDocument {
    pub document: Option<Window>,
}

/// The response around one record.
#[derive(Debug)]
pub struct WindowResponse {
    pub window: Option<Window>,
}

impl Default for WindowResponse {
    fn default() -> (r: Self)
        ensures
            r.window is None,
    {
        WindowResponse { window: Option::None }
    }
}

/// The response around a list of records.
#[derive(Debug)]
pub struct WindowListResponse {
    pub windows: Option<Vec<Window>>,
}

impl Window {
    /// A lookup probe carrying only the id.
    pub fn from_id(id: Option<String>) -> (r: Window)
        ensures
            r.model() == (WindowModel { id: crate::text::view_opt(id), ..Window::empty_model() }),
    {
        let mut record = Window::empty();
        record.id = id;
        record
    }
}

impl Window {
    /// A short description of the record for diagnostics.
    pub fn to_string(&self) -> (r: String)
        ensures
            r@ == "Window UUID "@ + (match self.uuid {
                Option::Some(u) => u@,
                Option::None => Seq::empty(),
            }) + " Index "@ + (match self.index_value {
                Option::Some(v) => v@,
                Option::None => Seq::empty(),
            }),
    {
        let mut out = "Window UUID ".to_owned();
        match &self.uuid {
            Option::Some(u) => out.append(u.as_str()),
            Option::None => {
            },
        }
        out.append(" Index ");
        match &self.index_value {
            Option::Some(v) => out.append(v.as_str()),
            Option::None => {
            },
        }
        out
    }
}

impl Default for Window {
    fn default() -> (r: Window)
        ensures
            r.model() == Window::empty_model(),
    {
        Window::empty()
    }
}

} // verus!
