//! The process/report dictionary entity and its parameters.

use vstd::prelude::*;
use crate::text::view_opt;
use crate::value::dec_opt_bool;
use crate::value::dec_opt_i32;
use crate::value::dec_opt_text;
use crate::value::dec_opt_texts;
use crate::value::decode_opt_bool;
use crate::value::decode_opt_i32;
use crate::value::decode_opt_text;
use crate::value::decode_opt_texts;
use crate::value::enc_opt_bool;
use crate::value::enc_opt_i32;
use crate::value::enc_opt_text;
use crate::value::enc_opt_texts;
use crate::value::encode_opt_bool;
use crate::value::encode_opt_i32;
use crate::value::encode_opt_text;
use crate::value::encode_opt_texts;
use crate::value::lemma_fields_of;
use crate::value::lemma_models_of;
use crate::value::lemma_opt_texts_round_trip;
use crate::value::view_opt_texts;
use crate::value::Key;
use crate::value::ValModel;
use crate::value::Value;

use crate::dictionary::enc_opt_dictionary_entity;
use crate::dictionary::encode_opt_dictionary_entity;
use crate::dictionary::decode_opt_dictionary_entity;
use crate::dictionary::view_opt_dictionary_entity;
use crate::dictionary::lemma_dictionary_entity_round_trip;
use crate::dictionary::DictionaryEntity;
use crate::dictionary::DictionaryEntityModel;
use crate::dictionary::enc_opt_reference;
use crate::dictionary::encode_opt_reference;
use crate::dictionary::decode_opt_reference;
use crate::dictionary::view_opt_reference;
use crate::dictionary::lemma_reference_round_trip;
use crate::dictionary::Reference;
use crate::dictionary::ReferenceModel;
use crate::dictionary::enc_opt_dependend_fields;
use crate::dictionary::dec_opt_dependend_fields;
use crate::dictionary::encode_opt_dependend_fields;
use crate::dictionary::decode_opt_dependend_fields;
use crate::dictionary::view_opt_dependend_fields;
use crate::dictionary::lemma_dependend_fields_round_trip;
use crate::dictionary::DependendField;
use crate::dictionary::DependendFieldModel;

verus! {

/// One input parameter of a process, with its value, display and
/// mandatory attributes.
#[derive(Debug, Clone)]
pub struct ProcessParameters {
    pub uuid: Option<String>,
    pub internal_id: Option<i32>,
    pub id: Option<String>,
    pub column_name: Option<String>,
    pub name: Option<String>,
    pub description: Option<String>,
    pub help: Option<String>,
    pub display_type: Option<i32>,
    pub is_range: Option<bool>,
    pub default_value: Option<String>,
    pub default_value_to: Option<String>,
    pub sequence: Option<i32>,
    pub is_mandatory: Option<bool>,
    pub is_info_only: Option<bool>,
    pub context_column_names: Option<Vec<String>>,
    pub reference: Option<Reference>,
    pub dependent_fields: Option<Vec<DependendField>>,
}

/// The mathematical model of a [`ProcessParameters`].
pub struct ProcessParametersModel {
    pub uuid: Option<Seq<char>>,
    pub internal_id: Option<i32>,
    pub id: Option<Seq<char>>,
    pub column_name: Option<Seq<char>>,
    pub name: Option<Seq<char>>,
    pub description: Option<Seq<char>>,
    pub help: Option<Seq<char>>,
    pub display_type: Option<i32>,
    pub is_range: Option<bool>,
    pub default_value: Option<Seq<char>>,
    pub default_value_to: Option<Seq<char>>,
    pub sequence: Option<i32>,
    pub is_mandatory: Option<bool>,
    pub is_info_only: Option<bool>,
    pub context_column_names: Option<Seq<Seq<char>>>,
    pub reference: Option<ReferenceModel>,
    pub dependent_fields: Option<Seq<DependendFieldModel>>,
}

impl ProcessParameters {
    pub open spec fn model(self) -> ProcessParametersModel {
        ProcessParametersModel {
            uuid: view_opt(self.uuid),
            internal_id: self.internal_id,
            id: view_opt(self.id),
            column_name: view_opt(self.column_name),
            name: view_opt(self.name),
            description: view_opt(self.description),
            help: view_opt(self.help),
            display_type: self.display_type,
            is_range: self.is_range,
            default_value: view_opt(self.default_value),
            default_value_to: view_opt(self.default_value_to),
            sequence: self.sequence,
            is_mandatory: self.is_mandatory,
            is_info_only: self.is_info_only,
            context_column_names: view_opt_texts(self.context_column_names),
            reference: view_opt_reference(self.reference),
            dependent_fields: view_opt_dependend_fields(self.dependent_fields),
        }
    }

    pub open spec fn empty_model() -> ProcessParametersModel {
        ProcessParametersModel {
            uuid: Option::None,
            internal_id: Option::None,
            id: Option::None,
            column_name: Option::None,
            name: Option::None,
            description: Option::None,
            help: Option::None,
            display_type: Option::None,
            is_range: Option::None,
            default_value: Option::None,
            default_value_to: Option::None,
            sequence: Option::None,
            is_mandatory: Option::None,
            is_info_only: Option::None,
            context_column_names: Option::None,
            reference: Option::None,
            dependent_fields: Option::None,
        }
    }

    /// The stored shape: every field present under its key, absent values
    /// as null.
    pub open spec fn enc(m: ProcessParametersModel) -> ValModel {
        ValModel::Object(
            seq![
                (Key::Uuid, enc_opt_text(m.uuid)),
                (Key::InternalId, enc_opt_i32(m.internal_id)),
                (Key::Id, enc_opt_text(m.id)),
                (Key::ColumnName, enc_opt_text(m.column_name)),
                (Key::Name, enc_opt_text(m.name)),
                (Key::Description, enc_opt_text(m.description)),
                (Key::Help, enc_opt_text(m.help)),
                (Key::DisplayType, enc_opt_i32(m.display_type)),
                (Key::IsRange, enc_opt_bool(m.is_range)),
                (Key::DefaultValue, enc_opt_text(m.default_value)),
                (Key::DefaultValueTo, enc_opt_text(m.default_value_to)),
                (Key::Sequence, enc_opt_i32(m.sequence)),
                (Key::IsMandatory, enc_opt_bool(m.is_mandatory)),
                (Key::IsInfoOnly, enc_opt_bool(m.is_info_only)),
                (Key::ContextColumnNames, enc_opt_texts(m.context_column_names)),
                (Key::Reference, enc_opt_reference(m.reference)),
                (Key::DependentFields, enc_opt_dependend_fields(m.dependent_fields)),
            ],
        )
    }

    /// One decoding step: a recognized key sets its field; unknown keys are
    /// ignored.
    pub open spec fn apply_field(m: ProcessParametersModel, k: Key, v: ValModel) -> ProcessParametersModel {
        match k {
            Key::Uuid => ProcessParametersModel { uuid: dec_opt_text(v), ..m },
            Key::InternalId => ProcessParametersModel { internal_id: dec_opt_i32(v), ..m },
            Key::Id => ProcessParametersModel { id: dec_opt_text(v), ..m },
            Key::ColumnName => ProcessParametersModel { column_name: dec_opt_text(v), ..m },
            Key::Name => ProcessParametersModel { name: dec_opt_text(v), ..m },
            Key::Description => ProcessParametersModel { description: dec_opt_text(v), ..m },
            Key::Help => ProcessParametersModel { help: dec_opt_text(v), ..m },
            Key::DisplayType => ProcessParametersModel { display_type: dec_opt_i32(v), ..m },
            Key::IsRange => ProcessParametersModel { is_range: dec_opt_bool(v), ..m },
            Key::DefaultValue => ProcessParametersModel { default_value: dec_opt_text(v), ..m },
            Key::DefaultValueTo => ProcessParametersModel { default_value_to: dec_opt_text(v), ..m },
            Key::Sequence => ProcessParametersModel { sequence: dec_opt_i32(v), ..m },
            Key::IsMandatory => ProcessParametersModel { is_mandatory: dec_opt_bool(v), ..m },
            Key::IsInfoOnly => ProcessParametersModel { is_info_only: dec_opt_bool(v), ..m },
            Key::ContextColumnNames => ProcessParametersModel { context_column_names: dec_opt_texts(v), ..m },
            Key::Reference => ProcessParametersModel { reference: Reference::dec(v), ..m },
            Key::DependentFields => ProcessParametersModel { dependent_fields: dec_opt_dependend_fields(v), ..m },
            _ => m,
        }
    }

    pub open spec fn fold_fields(m: ProcessParametersModel, fs: Seq<(Key, ValModel)>, i: int) -> ProcessParametersModel
        decreases fs.len() - i,
    {
        if i < 0 || i >= fs.len() {
            m
        } else {
            ProcessParameters::fold_fields(ProcessParameters::apply_field(m, fs[i].0, fs[i].1), fs, i + 1)
        }
    }

    /// Decoding of a stored document into a model; only objects decode.
    pub open spec fn dec(v: ValModel) -> Option<ProcessParametersModel> {
        match v {
            ValModel::Object(fs) => Option::Some(ProcessParameters::fold_fields(ProcessParameters::empty_model(), fs, 0)),
            _ => Option::None,
        }
    }

    pub fn empty() -> (r: ProcessParameters)
        ensures
            r.model() == ProcessParameters::empty_model(),
    {
        ProcessParameters {
            uuid: Option::None,
            internal_id: Option::None,
            id: Option::None,
            column_name: Option::None,
            name: Option::None,
            description: Option::None,
            help: Option::None,
            display_type: Option::None,
            is_range: Option::None,
            default_value: Option::None,
            default_value_to: Option::None,
            sequence: Option::None,
            is_mandatory: Option::None,
            is_info_only: Option::None,
            context_column_names: Option::None,
            reference: Option::None,
            dependent_fields: Option::None,
        }
    }

    /// The stored payload of this record.
    pub fn encode(&self) -> (r: Value)
        ensures
            r.model() == ProcessParameters::enc(self.model()),
    {
        let mut fs: Vec<(Key, Value)> = Vec::new();
        fs.push((Key::Uuid, encode_opt_text(&self.uuid)));
        fs.push((Key::InternalId, encode_opt_i32(&self.internal_id)));
        fs.push((Key::Id, encode_opt_text(&self.id)));
        fs.push((Key::ColumnName, encode_opt_text(&self.column_name)));
        fs.push((Key::Name, encode_opt_text(&self.name)));
        fs.push((Key::Description, encode_opt_text(&self.description)));
        fs.push((Key::Help, encode_opt_text(&self.help)));
        fs.push((Key::DisplayType, encode_opt_i32(&self.display_type)));
        fs.push((Key::IsRange, encode_opt_bool(&self.is_range)));
        fs.push((Key::DefaultValue, encode_opt_text(&self.default_value)));
        fs.push((Key::DefaultValueTo, encode_opt_text(&self.default_value_to)));
        fs.push((Key::Sequence, encode_opt_i32(&self.sequence)));
        fs.push((Key::IsMandatory, encode_opt_bool(&self.is_mandatory)));
        fs.push((Key::IsInfoOnly, encode_opt_bool(&self.is_info_only)));
        fs.push((Key::ContextColumnNames, encode_opt_texts(&self.context_column_names)));
        fs.push((Key::Reference, encode_opt_reference(&self.reference)));
        fs.push((Key::DependentFields, encode_opt_dependend_fields(&self.dependent_fields)));
        proof {
            lemma_fields_of(fs@);
            let target = ProcessParameters::enc(self.model())->Object_0;
            assert forall|j: int| 0 <= j < fs@.len() implies Value::fields_of(fs@)[j]
                == target[j] by {
                assert(Value::fields_of(fs@)[j] == (fs@[j].0, fs@[j].1.model()));
            }
            assert(Value::fields_of(fs@) =~= target);
        }
        Value::Object(fs)
    }

    /// Decoding of a stored document; inverse of [`ProcessParameters::encode`] on the
    /// models.
    pub fn decode(v: &Value) -> (r: Option<ProcessParameters>)
        ensures
            match (r, ProcessParameters::dec(v.model())) {
                (Option::Some(x), Option::Some(m)) => x.model() == m,
                (Option::None, Option::None) => true,
                _ => false,
            },
    {
        match v {
            Value::Object(fs) => {
                let ghost fsm = Value::fields_of(fs@);
                proof {
                    lemma_fields_of(fs@);
                }
                let mut out = ProcessParameters::empty();
                let mut i: usize = 0;
                while i < fs.len()
                    invariant
                        0 <= i <= fs@.len(),
                        fsm == Value::fields_of(fs@),
                        fsm.len() == fs@.len(),
                        forall|k: int|
                            0 <= k < fs@.len() ==> fsm[k] == (#[trigger] fs@[k].0, fs@[k].1.model()),
                        ProcessParameters::fold_fields(ProcessParameters::empty_model(), fsm, 0)
                            == ProcessParameters::fold_fields(out.model(), fsm, i as int),
                    decreases fs@.len() - i,
                {
                    let ghost before = out.model();
                    let (k, v) = &fs[i];
                    match k {
                        Key::Uuid => out.uuid = decode_opt_text(v),
                        Key::InternalId => out.internal_id = decode_opt_i32(v),
                        Key::Id => out.id = decode_opt_text(v),
                        Key::ColumnName => out.column_name = decode_opt_text(v),
                        Key::Name => out.name = decode_opt_text(v),
                        Key::Description => out.description = decode_opt_text(v),
                        Key::Help => out.help = decode_opt_text(v),
                        Key::DisplayType => out.display_type = decode_opt_i32(v),
                        Key::IsRange => out.is_range = decode_opt_bool(v),
                        Key::DefaultValue => out.default_value = decode_opt_text(v),
                        Key::DefaultValueTo => out.default_value_to = decode_opt_text(v),
                        Key::Sequence => out.sequence = decode_opt_i32(v),
                        Key::IsMandatory => out.is_mandatory = decode_opt_bool(v),
                        Key::IsInfoOnly => out.is_info_only = decode_opt_bool(v),
                        Key::ContextColumnNames => out.context_column_names = decode_opt_texts(v),
                        Key::Reference => out.reference = decode_opt_reference(v),
                        Key::DependentFields => out.dependent_fields = decode_opt_dependend_fields(v),
                        _ => {
                        },
                    }
                    proof {
                        assert(out.model() == ProcessParameters::apply_field(before, fsm[i as int].0, fsm[i as int].1));
                    }
                    i = i + 1;
                }
                Option::Some(out)
            },
            _ => Option::None,
        }
    }
}

/// The model of an optional process parameters record.
pub open spec fn view_opt_process_parameters(o: Option<ProcessParameters>) -> Option<ProcessParametersModel> {
    match o {
        Option::None => Option::None,
        Option::Some(x) => Option::Some(x.model()),
    }
}

pub open spec fn enc_opt_process_parameters(o: Option<ProcessParametersModel>) -> ValModel {
    match o {
        Option::None => ValModel::Null,
        Option::Some(m) => ProcessParameters::enc(m),
    }
}

pub fn encode_opt_process_parameters(o: &Option<ProcessParameters>) -> (r: Value)
    ensures
        r.model() == enc_opt_process_parameters(view_opt_process_parameters(*o)),
{
    match o {
        Option::None => Value::Null,
        Option::Some(x) => x.encode(),
    }
}

pub fn decode_opt_process_parameters(v: &Value) -> (r: Option<ProcessParameters>)
    ensures
        view_opt_process_parameters(r) == ProcessParameters::dec(v.model()),
{
    ProcessParameters::decode(v)
}

/// Decoding inverts encoding for every process parameters record.
#[verifier::rlimit(100)]
pub proof fn lemma_process_parameters_round_trip(m: ProcessParametersModel)
    ensures
        ProcessParameters::dec(ProcessParameters::enc(m)) == Option::Some(m),
{
    lemma_opt_texts_round_trip(m.context_column_names);
    match m.reference {
        Option::Some(a) => lemma_reference_round_trip(a),
        Option::None => {
        },
    }
    match m.dependent_fields {
        Option::Some(s) => lemma_dependend_fields_round_trip(s),
        Option::None => {
        },
    }
    let fs = ProcessParameters::enc(m)->Object_0;
    let s0 = ProcessParameters::empty_model();
    let s1 = ProcessParameters::apply_field(s0, fs[0].0, fs[0].1);
    let s2 = ProcessParameters::apply_field(s1, fs[1].0, fs[1].1);
    let s3 = ProcessParameters::apply_field(s2, fs[2].0, fs[2].1);
    let s4 = ProcessParameters::apply_field(s3, fs[3].0, fs[3].1);
    let s5 = ProcessParameters::apply_field(s4, fs[4].0, fs[4].1);
    let s6 = ProcessParameters::apply_field(s5, fs[5].0, fs[5].1);
    let s7 = ProcessParameters::apply_field(s6, fs[6].0, fs[6].1);
    let s8 = ProcessParameters::apply_field(s7, fs[7].0, fs[7].1);
    let s9 = ProcessParameters::apply_field(s8, fs[8].0, fs[8].1);
    let s10 = ProcessParameters::apply_field(s9, fs[9].0, fs[9].1);
    let s11 = ProcessParameters::apply_field(s10, fs[10].0, fs[10].1);
    let s12 = ProcessParameters::apply_field(s11, fs[11].0, fs[11].1);
    let s13 = ProcessParameters::apply_field(s12, fs[12].0, fs[12].1);
    let s14 = ProcessParameters::apply_field(s13, fs[13].0, fs[13].1);
    let s15 = ProcessParameters::apply_field(s14, fs[14].0, fs[14].1);
    let s16 = ProcessParameters::apply_field(s15, fs[15].0, fs[15].1);
    let s17 = ProcessParameters::apply_field(s16, fs[16].0, fs[16].1);
    assert(ProcessParameters::fold_fields(s17, fs, 17) == s17);
    assert(ProcessParameters::fold_fields(s16, fs, 16) == s17);
    assert(ProcessParameters::fold_fields(s15, fs, 15) == s17);
    assert(ProcessParameters::fold_fields(s14, fs, 14) == s17);
    assert(ProcessParameters::fold_fields(s13, fs, 13) == s17);
    assert(ProcessParameters::fold_fields(s12, fs, 12) == s17);
    assert(ProcessParameters::fold_fields(s11, fs, 11) == s17);
    assert(ProcessParameters::fold_fields(s10, fs, 10) == s17);
    assert(ProcessParameters::fold_fields(s9, fs, 9) == s17);
    assert(ProcessParameters::fold_fields(s8, fs, 8) == s17);
    assert(ProcessParameters::fold_fields(s7, fs, 7) == s17);
    assert(ProcessParameters::fold_fields(s6, fs, 6) == s17);
    assert(ProcessParameters::fold_fields(s5, fs, 5) == s17);
    assert(ProcessParameters::fold_fields(s4, fs, 4) == s17);
    assert(ProcessParameters::fold_fields(s3, fs, 3) == s17);
    assert(ProcessParameters::fold_fields(s2, fs, 2) == s17);
    assert(ProcessParameters::fold_fields(s1, fs, 1) == s17);
    assert(ProcessParameters::fold_fields(s0, fs, 0) == s17);
    assert(s17 == m);
}

/// Encoding of a sequence of process parameters records.
pub open spec fn enc_process_parameterss(s: Seq<ProcessParametersModel>) -> Seq<ValModel>
    decreases s,
{
    if s.len() == 0 {
        Seq::empty()
    } else {
        seq![ProcessParameters::enc(s[0])] + enc_process_parameterss(s.drop_first())
    }
}

/// Decoding of a list of process parameters records; elements that do not
/// decode are ignored.
pub open spec fn dec_process_parameterss(items: Seq<ValModel>) -> Seq<ProcessParametersModel>
    decreases items,
{
    if items.len() == 0 {
        Seq::empty()
    } else {
        match ProcessParameters::dec(items[0]) {
            Option::Some(m) => seq![m] + dec_process_parameterss(items.drop_first()),
            Option::None => dec_process_parameterss(items.drop_first()),
        }
    }
}

pub open spec fn enc_opt_process_parameterss(o: Option<Seq<ProcessParametersModel>>) -> ValModel {
    match o {
        Option::None => ValModel::Null,
        Option::Some(s) => ValModel::List(enc_process_parameterss(s)),
    }
}

pub open spec fn dec_opt_process_parameterss(v: ValModel) -> Option<Seq<ProcessParametersModel>> {
    match v {
        ValModel::List(items) => Option::Some(dec_process_parameterss(items)),
        _ => Option::None,
    }
}

/// The model of an optional vector of process parameters records.
pub open spec fn view_opt_process_parameterss(o: Option<Vec<ProcessParameters>>) -> Option<Seq<ProcessParametersModel>> {
    match o {
        Option::None => Option::None,
        Option::Some(v) => Option::Some(Seq::new(v@.len(), |i: int| v@[i].model())),
    }
}

/// `enc_process_parameterss` indexes point-wise.
pub proof fn lemma_enc_process_parameterss_index(s: Seq<ProcessParametersModel>)
    ensures
        enc_process_parameterss(s).len() == s.len(),
        forall|i: int| 0 <= i < s.len() ==> enc_process_parameterss(s)[i] == ProcessParameters::enc(#[trigger] s[i]),
    decreases s,
{
    if s.len() > 0 {
        lemma_enc_process_parameterss_index(s.drop_first());
        assert forall|i: int| 0 <= i < s.len() implies enc_process_parameterss(s)[i] == ProcessParameters::enc(
            #[trigger] s[i],
        ) by {
            if i > 0 {
                assert(s.drop_first()[i - 1] == s[i]);
                assert(enc_process_parameterss(s)[i] == enc_process_parameterss(s.drop_first())[i - 1]);
            }
        }
    }
}

/// List decode inverts list encode, element by element.
pub proof fn lemma_process_parameterss_round_trip(s: Seq<ProcessParametersModel>)
    ensures
        dec_process_parameterss(enc_process_parameterss(s)) == s,
    decreases s,
{
    if s.len() == 0 {
        assert(dec_process_parameterss(enc_process_parameterss(s)) =~= s);
    } else {
        lemma_process_parameters_round_trip(s[0]);
        lemma_process_parameterss_round_trip(s.drop_first());
        assert(enc_process_parameterss(s).drop_first() =~= enc_process_parameterss(s.drop_first()));
        assert(seq![s[0]] + s.drop_first() =~= s);
    }
}

pub fn encode_opt_process_parameterss(o: &Option<Vec<ProcessParameters>>) -> (r: Value)
    ensures
        r.model() == enc_opt_process_parameterss(view_opt_process_parameterss(*o)),
{
    match o {
        Option::None => Value::Null,
        Option::Some(v) => {
            let mut out: Vec<Value> = Vec::new();
            let mut i: usize = 0;
            while i < v.len()
                invariant
                    0 <= i <= v@.len(),
                    out@.len() == i,
                    forall|j: int| 0 <= j < i ==> #[trigger] out@[j].model() == ProcessParameters::enc(v@[j].model()),
                decreases v@.len() - i,
            {
                out.push(v[i].encode());
                i = i + 1;
            }
            proof {
                let vs = view_opt_process_parameterss(*o)->Some_0;
                lemma_models_of(out@);
                lemma_enc_process_parameterss_index(vs);
                assert forall|j: int| 0 <= j < out@.len() implies Value::models_of(out@)[j]
                    == enc_process_parameterss(vs)[j] by {
                    assert(out@[j].model() == ProcessParameters::enc(v@[j].model()));
                    assert(vs[j] == v@[j].model());
                }
                assert(Value::models_of(out@) =~= enc_process_parameterss(vs));
            }
            Value::List(out)
        },
    }
}

pub fn decode_opt_process_parameterss(v: &Value) -> (r: Option<Vec<ProcessParameters>>)
    ensures
        view_opt_process_parameterss(r) == dec_opt_process_parameterss(v.model()),
{
    match v {
        Value::List(items) => {
            let mut out: Vec<ProcessParameters> = Vec::new();
            let mut i: usize = 0;
            let ghost ms = Value::models_of(items@);
            proof {
                lemma_models_of(items@);
                assert(ms.subrange(0, ms.len() as int) =~= ms);
                assert(Seq::new(0, |j: int| out@[j].model()) + dec_process_parameterss(ms) =~= dec_process_parameterss(ms));
            }
            while i < items.len()
                invariant
                    0 <= i <= items@.len(),
                    ms == Value::models_of(items@),
                    ms.len() == items@.len(),
                    forall|k: int| 0 <= k < items@.len() ==> ms[k] == #[trigger] items@[k].model(),
                    dec_process_parameterss(ms) == Seq::new(out@.len(), |j: int| out@[j].model()) + dec_process_parameterss(
                        ms.subrange(i as int, ms.len() as int),
                    ),
                decreases items@.len() - i,
            {
                let ghost prev = Seq::new(out@.len(), |j: int| out@[j].model());
                let ghost rest = ms.subrange(i as int, ms.len() as int);
                proof {
                    assert(rest[0] == ms[i as int]);
                    assert(rest.drop_first() =~= ms.subrange(i + 1, ms.len() as int));
                    assert(ms[i as int] == items@[i as int].model());
                }
                match ProcessParameters::decode(&items[i]) {
                    Option::Some(x) => {
                        out.push(x);
                        proof {
                            assert(Seq::new(out@.len(), |j: int| out@[j].model()) =~= prev
                                + seq![out@[out@.len() - 1].model()]);
                            assert(prev + seq![out@[out@.len() - 1].model()] + dec_process_parameterss(
                                ms.subrange(i + 1, ms.len() as int),
                            ) =~= prev + (seq![out@[out@.len() - 1].model()] + dec_process_parameterss(
                                ms.subrange(i + 1, ms.len() as int),
                            )));
                        }
                    },
                    Option::None => {
                    },
                }
                i = i + 1;
            }
            proof {
                assert(ms.subrange(ms.len() as int, ms.len() as int) =~= Seq::<ValModel>::empty());
                assert(dec_process_parameterss(ms) =~= Seq::new(out@.len(), |j: int| out@[j].model()));
            }
            Option::Some(out)
        },
        _ => Option::None,
    }
}


/// A process or report dictionary object, with its linked browser, form
/// and workflow, and its parameters.
#[derive(Debug, Clone)]
pub struct Process {
    pub uuid: Option<String>,
    pub internal_id: Option<i32>,
    pub id: Option<String>,
    pub code: Option<String>,
    pub name: Option<String>,
    pub description: Option<String>,
    pub help: Option<String>,
    pub is_active: Option<bool>,
    pub show_help: Option<String>,
    pub is_report: Option<bool>,
    pub report_view_id: Option<i32>,
    pub print_format_id: Option<i32>,
    pub browser_id: Option<i32>,
    pub browser: Option<DictionaryEntity>,
    pub form_id: Option<i32>,
    pub form: Option<DictionaryEntity>,
    pub workflow_id: Option<i32>,
    pub workflow: Option<DictionaryEntity>,
    pub index_value: Option<String>,
    pub language: Option<String>,
    pub client_id: Option<String>,
    pub role_id: Option<String>,
    pub user_id: Option<String>,
    pub has_parameters: Option<bool>,
    pub parameters: Option<Vec<ProcessParameters>>,
}

/// The mathematical model of a [`Process`].
pub struct ProcessModel {
    pub uuid: Option<Seq<char>>,
    pub internal_id: Option<i32>,
    pub id: Option<Seq<char>>,
    pub code: Option<Seq<char>>,
    pub name: Option<Seq<char>>,
    pub description: Option<Seq<char>>,
    pub help: Option<Seq<char>>,
    pub is_active: Option<bool>,
    pub show_help: Option<Seq<char>>,
    pub is_report: Option<bool>,
    pub report_view_id: Option<i32>,
    pub print_format_id: Option<i32>,
    pub browser_id: Option<i32>,
    pub browser: Option<DictionaryEntityModel>,
    pub form_id: Option<i32>,
    pub form: Option<DictionaryEntityModel>,
    pub workflow_id: Option<i32>,
    pub workflow: Option<DictionaryEntityModel>,
    pub index_value: Option<Seq<char>>,
    pub language: Option<Seq<char>>,
    pub client_id: Option<Seq<char>>,
    pub role_id: Option<Seq<char>>,
    pub user_id: Option<Seq<char>>,
    pub has_parameters: Option<bool>,
    pub parameters: Option<Seq<ProcessParametersModel>>,
}

impl Process {
    pub open spec fn model(self) -> ProcessModel {
        ProcessModel {
            uuid: view_opt(self.uuid),
            internal_id: self.internal_id,
            id: view_opt(self.id),
            code: view_opt(self.code),
            name: view_opt(self.name),
            description: view_opt(self.description),
            help: view_opt(self.help),
            is_active: self.is_active,
            show_help: view_opt(self.show_help),
            is_report: self.is_report,
            report_view_id: self.report_view_id,
            print_format_id: self.print_format_id,
            browser_id: self.browser_id,
            browser: view_opt_dictionary_entity(self.browser),
            form_id: self.form_id,
            form: view_opt_dictionary_entity(self.form),
            workflow_id: self.workflow_id,
            workflow: view_opt_dictionary_entity(self.workflow),
            index_value: view_opt(self.index_value),
            language: view_opt(self.language),
            client_id: view_opt(self.client_id),
            role_id: view_opt(self.role_id),
            user_id: view_opt(self.user_id),
            has_parameters: self.has_parameters,
            parameters: view_opt_process_parameterss(self.parameters),
        }
    }

    pub open spec fn empty_model() -> ProcessModel {
        ProcessModel {
            uuid: Option::None,
            internal_id: Option::None,
            id: Option::None,
            code: Option::None,
            name: Option::None,
            description: Option::None,
            help: Option::None,
            is_active: Option::None,
            show_help: Option::None,
            is_report: Option::None,
            report_view_id: Option::None,
            print_format_id: Option::None,
            browser_id: Option::None,
            browser: Option::None,
            form_id: Option::None,
            form: Option::None,
            workflow_id: Option::None,
            workflow: Option::None,
            index_value: Option::None,
            language: Option::None,
            client_id: Option::None,
            role_id: Option::None,
            user_id: Option::None,
            has_parameters: Option::None,
            parameters: Option::None,
        }
    }

    /// The stored shape: every field present under its key, absent values
    /// as null.
    pub open spec fn enc(m: ProcessModel) -> ValModel {
        ValModel::Object(
            seq![
                (Key::Uuid, enc_opt_text(m.uuid)),
                (Key::InternalId, enc_opt_i32(m.internal_id)),
                (Key::Id, enc_opt_text(m.id)),
                (Key::Code, enc_opt_text(m.code)),
                (Key::Name, enc_opt_text(m.name)),
                (Key::Description, enc_opt_text(m.description)),
                (Key::Help, enc_opt_text(m.help)),
                (Key::IsActive, enc_opt_bool(m.is_active)),
                (Key::ShowHelp, enc_opt_text(m.show_help)),
                (Key::IsReport, enc_opt_bool(m.is_report)),
                (Key::ReportViewId, enc_opt_i32(m.report_view_id)),
                (Key::PrintFormatId, enc_opt_i32(m.print_format_id)),
                (Key::BrowserId, enc_opt_i32(m.browser_id)),
                (Key::Browser, enc_opt_dictionary_entity(m.browser)),
                (Key::FormId, enc_opt_i32(m.form_id)),
                (Key::Form, enc_opt_dictionary_entity(m.form)),
                (Key::WorkflowId, enc_opt_i32(m.workflow_id)),
                (Key::Workflow, enc_opt_dictionary_entity(m.workflow)),
                (Key::IndexValue, enc_opt_text(m.index_value)),
                (Key::Language, enc_opt_text(m.language)),
                (Key::ClientId, enc_opt_text(m.client_id)),
                (Key::RoleId, enc_opt_text(m.role_id)),
                (Key::UserId, enc_opt_text(m.user_id)),
                (Key::HasParameters, enc_opt_bool(m.has_parameters)),
                (Key::Parameters, enc_opt_process_parameterss(m.parameters)),
            ],
        )
    }

    /// One decoding step: a recognized key sets its field; unknown keys are
    /// ignored.
    pub open spec fn apply_field(m: ProcessModel, k: Key, v: ValModel) -> ProcessModel {
        match k {
            Key::Uuid => ProcessModel { uuid: dec_opt_text(v), ..m },
            Key::InternalId => ProcessModel { internal_id: dec_opt_i32(v), ..m },
            Key::Id => ProcessModel { id: dec_opt_text(v), ..m },
            Key::Code => ProcessModel { code: dec_opt_text(v), ..m },
            Key::Name => ProcessModel { name: dec_opt_text(v), ..m },
            Key::Description => ProcessModel { description: dec_opt_text(v), ..m },
            Key::Help => ProcessModel { help: dec_opt_text(v), ..m },
            Key::IsActive => ProcessModel { is_active: dec_opt_bool(v), ..m },
            Key::ShowHelp => ProcessModel { show_help: dec_opt_text(v), ..m },
            Key::IsReport => ProcessModel { is_report: dec_opt_bool(v), ..m },
            Key::ReportViewId => ProcessModel { report_view_id: dec_opt_i32(v), ..m },
            Key::PrintFormatId => ProcessModel { print_format_id: dec_opt_i32(v), ..m },
            Key::BrowserId => ProcessModel { browser_id: dec_opt_i32(v), ..m },
            Key::Browser => ProcessModel { browser: DictionaryEntity::dec(v), ..m },
            Key::FormId => ProcessModel { form_id: dec_opt_i32(v), ..m },
            Key::Form => ProcessModel { form: DictionaryEntity::dec(v), ..m },
            Key::WorkflowId => ProcessModel { workflow_id: dec_opt_i32(v), ..m },
            Key::Workflow => ProcessModel { workflow: DictionaryEntity::dec(v), ..m },
            Key::IndexValue => ProcessModel { index_value: dec_opt_text(v), ..m },
            Key::Language => ProcessModel { language: dec_opt_text(v), ..m },
            Key::ClientId => ProcessModel { client_id: dec_opt_text(v), ..m },
            Key::RoleId => ProcessModel { role_id: dec_opt_text(v), ..m },
            Key::UserId => ProcessModel { user_id: dec_opt_text(v), ..m },
            Key::HasParameters => ProcessModel { has_parameters: dec_opt_bool(v), ..m },
            Key::Parameters => ProcessModel { parameters: dec_opt_process_parameterss(v), ..m },
            _ => m,
        }
    }

    pub open spec fn fold_fields(m: ProcessModel, fs: Seq<(Key, ValModel)>, i: int) -> ProcessModel
        decreases fs.len() - i,
    {
        if i < 0 || i >= fs.len() {
            m
        } else {
            Process::fold_fields(Process::apply_field(m, fs[i].0, fs[i].1), fs, i + 1)
        }
    }

    /// Decoding of a stored document into a model; only objects decode.
    pub open spec fn dec(v: ValModel) -> Option<ProcessModel> {
        match v {
            ValModel::Object(fs) => Option::Some(Process::fold_fields(Process::empty_model(), fs, 0)),
            _ => Option::None,
        }
    }

    pub fn empty() -> (r: Process)
        ensures
            r.model() == Process::empty_model(),
    {
        Process {
            uuid: Option::None,
            internal_id: Option::None,
            id: Option::None,
            code: Option::None,
            name: Option::None,
            description: Option::None,
            help: Option::None,
            is_active: Option::None,
            show_help: Option::None,
            is_report: Option::None,
            report_view_id: Option::None,
            print_format_id: Option::None,
            browser_id: Option::None,
            browser: Option::None,
            form_id: Option::None,
            form: Option::None,
            workflow_id: Option::None,
            workflow: Option::None,
            index_value: Option::None,
            language: Option::None,
            client_id: Option::None,
            role_id: Option::None,
            user_id: Option::None,
            has_parameters: Option::None,
            parameters: Option::None,
        }
    }

    /// The stored payload of this record.
    pub fn encode(&self) -> (r: Value)
        ensures
            r.model() == Process::enc(self.model()),
    {
        let mut fs: Vec<(Key, Value)> = Vec::new();
        fs.push((Key::Uuid, encode_opt_text(&self.uuid)));
        fs.push((Key::InternalId, encode_opt_i32(&self.internal_id)));
        fs.push((Key::Id, encode_opt_text(&self.id)));
        fs.push((Key::Code, encode_opt_text(&self.code)));
        fs.push((Key::Name, encode_opt_text(&self.name)));
        fs.push((Key::Description, encode_opt_text(&self.description)));
        fs.push((Key::Help, encode_opt_text(&self.help)));
        fs.push((Key::IsActive, encode_opt_bool(&self.is_active)));
        fs.push((Key::ShowHelp, encode_opt_text(&self.show_help)));
        fs.push((Key::IsReport, encode_opt_bool(&self.is_report)));
        fs.push((Key::ReportViewId, encode_opt_i32(&self.report_view_id)));
        fs.push((Key::PrintFormatId, encode_opt_i32(&self.print_format_id)));
        fs.push((Key::BrowserId, encode_opt_i32(&self.browser_id)));
        fs.push((Key::Browser, encode_opt_dictionary_entity(&self.browser)));
        fs.push((Key::FormId, encode_opt_i32(&self.form_id)));
        fs.push((Key::Form, encode_opt_dictionary_entity(&self.form)));
        fs.push((Key::WorkflowId, encode_opt_i32(&self.workflow_id)));
        fs.push((Key::Workflow, encode_opt_dictionary_entity(&self.workflow)));
        fs.push((Key::IndexValue, encode_opt_text(&self.index_value)));
        fs.push((Key::Language, encode_opt_text(&self.language)));
        fs.push((Key::ClientId, encode_opt_text(&self.client_id)));
        fs.push((Key::RoleId, encode_opt_text(&self.role_id)));
        fs.push((Key::UserId, encode_opt_text(&self.user_id)));
        fs.push((Key::HasParameters, encode_opt_bool(&self.has_parameters)));
        fs.push((Key::Parameters, encode_opt_process_parameterss(&self.parameters)));
        proof {
            lemma_fields_of(fs@);
            let target = Process::enc(self.model())->Object_0;
            assert forall|j: int| 0 <= j < fs@.len() implies Value::fields_of(fs@)[j]
                == target[j] by {
                assert(Value::fields_of(fs@)[j] == (fs@[j].0, fs@[j].1.model()));
            }
            assert(Value::fields_of(fs@) =~= target);
        }
        Value::Object(fs)
    }

    /// Decoding of a stored document; inverse of [`Process::encode`] on the
    /// models.
    pub fn decode(v: &Value) -> (r: Option<Process>)
        ensures
            match (r, Process::dec(v.model())) {
                (Option::Some(x), Option::Some(m)) => x.model() == m,
                (Option::None, Option::None) => true,
                _ => false,
            },
    {
        match v {
            Value::Object(fs) => {
                let ghost fsm = Value::fields_of(fs@);
                proof {
                    lemma_fields_of(fs@);
                }
                let mut out = Process::empty();
                let mut i: usize = 0;
                while i < fs.len()
                    invariant
                        0 <= i <= fs@.len(),
                        fsm == Value::fields_of(fs@),
                        fsm.len() == fs@.len(),
                        forall|k: int|
                            0 <= k < fs@.len() ==> fsm[k] == (#[trigger] fs@[k].0, fs@[k].1.model()),
                        Process::fold_fields(Process::empty_model(), fsm, 0)
                            == Process::fold_fields(out.model(), fsm, i as int),
                    decreases fs@.len() - i,
                {
                    let ghost before = out.model();
                    let (k, v) = &fs[i];
                    match k {
                        Key::Uuid => out.uuid = decode_opt_text(v),
                        Key::InternalId => out.internal_id = decode_opt_i32(v),
                        Key::Id => out.id = decode_opt_text(v),
                        Key::Code => out.code = decode_opt_text(v),
                        Key::Name => out.name = decode_opt_text(v),
                        Key::Description => out.description = decode_opt_text(v),
                        Key::Help => out.help = decode_opt_text(v),
                        Key::IsActive => out.is_active = decode_opt_bool(v),
                        Key::ShowHelp => out.show_help = decode_opt_text(v),
                        Key::IsReport => out.is_report = decode_opt_bool(v),
                        Key::ReportViewId => out.report_view_id = decode_opt_i32(v),
                        Key::PrintFormatId => out.print_format_id = decode_opt_i32(v),
                        Key::BrowserId => out.browser_id = decode_opt_i32(v),
                        Key::Browser => out.browser = decode_opt_dictionary_entity(v),
                        Key::FormId => out.form_id = decode_opt_i32(v),
                        Key::Form => out.form = decode_opt_dictionary_entity(v),
                        Key::WorkflowId => out.workflow_id = decode_opt_i32(v),
                        Key::Workflow => out.workflow = decode_opt_dictionary_entity(v),
                        Key::IndexValue => out.index_value = decode_opt_text(v),
                        Key::Language => out.language = decode_opt_text(v),
                        Key::ClientId => out.client_id = decode_opt_text(v),
                        Key::RoleId => out.role_id = decode_opt_text(v),
                        Key::UserId => out.user_id = decode_opt_text(v),
                        Key::HasParameters => out.has_parameters = decode_opt_bool(v),
                        Key::Parameters => out.parameters = decode_opt_process_parameterss(v),
                        _ => {
                        },
                    }
                    proof {
                        assert(out.model() == Process::apply_field(before, fsm[i as int].0, fsm[i as int].1));
                    }
                    i = i + 1;
                }
                Option::Some(out)
            },
            _ => Option::None,
        }
    }
}

/// The model of an optional process record.
pub open spec fn view_opt_process(o: Option<Process>) -> Option<ProcessModel> {
    match o {
        Option::None => Option::None,
        Option::Some(x) => Option::Some(x.model()),
    }
}

pub open spec fn enc_opt_process(o: Option<ProcessModel>) -> ValModel {
    match o {
        Option::None => ValModel::Null,
        Option::Some(m) => Process::enc(m),
    }
}

pub fn encode_opt_process(o: &Option<Process>) -> (r: Value)
    ensures
        r.model() == enc_opt_process(view_opt_process(*o)),
{
    match o {
        Option::None => Value::Null,
        Option::Some(x) => x.encode(),
    }
}

pub fn decode_opt_process(v: &Value) -> (r: Option<Process>)
    ensures
        view_opt_process(r) == Process::dec(v.model()),
{
    Process::decode(v)
}

/// Decoding inverts encoding for every process record.
#[verifier::rlimit(100)]
pub proof fn lemma_process_round_trip(m: ProcessModel)
    ensures
        Process::dec(Process::enc(m)) == Option::Some(m),
{
    match m.browser {
        Option::Some(a) => lemma_dictionary_entity_round_trip(a),
        Option::None => {
        },
    }
    match m.form {
        Option::Some(a) => lemma_dictionary_entity_round_trip(a),
        Option::None => {
        },
    }
    match m.workflow {
        Option::Some(a) => lemma_dictionary_entity_round_trip(a),
        Option::None => {
        },
    }
    match m.parameters {
        Option::Some(s) => lemma_process_parameterss_round_trip(s),
        Option::None => {
        },
    }
    let fs = Process::enc(m)->Object_0;
    let s0 = Process::empty_model();
    let s1 = Process::apply_field(s0, fs[0].0, fs[0].1);
    let s2 = Process::apply_field(s1, fs[1].0, fs[1].1);
    let s3 = Process::apply_field(s2, fs[2].0, fs[2].1);
    let s4 = Process::apply_field(s3, fs[3].0, fs[3].1);
    let s5 = Process::apply_field(s4, fs[4].0, fs[4].1);
    let s6 = Process::apply_field(s5, fs[5].0, fs[5].1);
    let s7 = Process::apply_field(s6, fs[6].0, fs[6].1);
    let s8 = Process::apply_field(s7, fs[7].0, fs[7].1);
    let s9 = Process::apply_field(s8, fs[8].0, fs[8].1);
    let s10 = Process::apply_field(s9, fs[9].0, fs[9].1);
    let s11 = Process::apply_field(s10, fs[10].0, fs[10].1);
    let s12 = Process::apply_field(s11, fs[11].0, fs[11].1);
    let s13 = Process::apply_field(s12, fs[12].0, fs[12].1);
    let s14 = Process::apply_field(s13, fs[13].0, fs[13].1);
    let s15 = Process::apply_field(s14, fs[14].0, fs[14].1);
    let s16 = Process::apply_field(s15, fs[15].0, fs[15].1);
    let s17 = Process::apply_field(s16, fs[16].0, fs[16].1);
    let s18 = Process::apply_field(s17, fs[17].0, fs[17].1);
    let s19 = Process::apply_field(s18, fs[18].0, fs[18].1);
    let s20 = Process::apply_field(s19, fs[19].0, fs[19].1);
    let s21 = Process::apply_field(s20, fs[20].0, fs[20].1);
    let s22 = Process::apply_field(s21, fs[21].0, fs[21].1);
    let s23 = Process::apply_field(s22, fs[22].0, fs[22].1);
    let s24 = Process::apply_field(s23, fs[23].0, fs[23].1);
    let s25 = Process::apply_field(s24, fs[24].0, fs[24].1);
    assert(Process::fold_fields(s25, fs, 25) == s25);
    assert(Process::fold_fields(s24, fs, 24) == s25);
    assert(Process::fold_fields(s23, fs, 23) == s25);
    assert(Process::fold_fields(s22, fs, 22) == s25);
    assert(Process::fold_fields(s21, fs, 21) == s25);
    assert(Process::fold_fields(s20, fs, 20) == s25);
    assert(Process::fold_fields(s19, fs, 19) == s25);
    assert(Process::fold_fields(s18, fs, 18) == s25);
    assert(Process::fold_fields(s17, fs, 17) == s25);
    assert(Process::fold_fields(s16, fs, 16) == s25);
    assert(Process::fold_fields(s15, fs, 15) == s25);
    assert(Process::fold_fields(s14, fs, 14) == s25);
    assert(Process::fold_fields(s13, fs, 13) == s25);
    assert(Process::fold_fields(s12, fs, 12) == s25);
    assert(Process::fold_fields(s11, fs, 11) == s25);
    assert(Process::fold_fields(s10, fs, 10) == s25);
    assert(Process::fold_fields(s9, fs, 9) == s25);
    assert(Process::fold_fields(s8, fs, 8) == s25);
    assert(Process::fold_fields(s7, fs, 7) == s25);
    assert(Process::fold_fields(s6, fs, 6) == s25);
    assert(Process::fold_fields(s5, fs, 5) == s25);
    assert(Process::fold_fields(s4, fs, 4) == s25);
    assert(Process::fold_fields(s3, fs, 3) == s25);
    assert(Process::fold_fields(s2, fs, 2) == s25);
    assert(Process::fold_fields(s1, fs, 1) == s25);
    assert(Process::fold_fields(s0, fs, 0) == s25);
    assert(s25 == m);
}

/// The CDC envelope around one process record.
#[derive(Debug)]
pub struct ProcessDocument {
    pub document: Option<Process>,
}

/// The response around one record.
#[derive(Debug)]
pub struct ProcessResponse {
    pub process: Option<Process>,
}

impl Default for ProcessResponse {
    fn default() -> (r: Self)
        ensures
            r.process is None,
    {
        ProcessResponse { process: Option::None }
    }
}

/// The response around a list of records.
#[derive(Debug)]
pub struct ProcessListResponse {
    pub processes: Option<Vec<Process>>,
}

impl Process {
    /// A lookup probe carrying only the id.
    pub fn from_id(id: Option<String>) -> (r: Process)
        ensures
            r.model() == (ProcessModel { id: crate::text::view_opt(id), ..Process::empty_model() }),
    {
        let mut record = Process::empty();
        record.id = id;
        record
    }
}

impl Default for Process {
    fn default() -> (r: Process)
        ensures
            r.model() == Process::empty_model(),
    {
        Process::empty()
    }
}

} // verus!
