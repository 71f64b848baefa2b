//! The smart-browser dictionary entity and its browse fields.

use vstd::prelude::*;
use crate::text::view_opt;
use crate::value::dec_opt_bool;
use crate::value::dec_opt_i32;
use crate::value::dec_opt_text;
use crate::value::dec_opt_texts;
use crate::value::decode_opt_bool;
use crate::value::decode_opt_i32;
use crate::value::decode_opt_text;
use crate::value::decode_opt_texts;
use crate::value::enc_opt_bool;
use crate::value::enc_opt_i32;
use crate::value::enc_opt_text;
use crate::value::enc_opt_texts;
use crate::value::encode_opt_bool;
use crate::value::encode_opt_i32;
use crate::value::encode_opt_text;
use crate::value::encode_opt_texts;
use crate::value::lemma_fields_of;
use crate::value::lemma_models_of;
use crate::value::lemma_opt_texts_round_trip;
use crate::value::view_opt_texts;
use crate::value::Key;
use crate::value::ValModel;
use crate::value::Value;

use crate::dictionary::enc_opt_dictionary_entity;
use crate::dictionary::encode_opt_dictionary_entity;
use crate::dictionary::decode_opt_dictionary_entity;
use crate::dictionary::view_opt_dictionary_entity;
use crate::dictionary::lemma_dictionary_entity_round_trip;
use crate::dictionary::DictionaryEntity;
use crate::dictionary::DictionaryEntityModel;
use crate::dictionary::enc_opt_reference;
use crate::dictionary::encode_opt_reference;
use crate::dictionary::decode_opt_reference;
use crate::dictionary::view_opt_reference;
use crate::dictionary::lemma_reference_round_trip;
use crate::dictionary::Reference;
use crate::dictionary::ReferenceModel;
use crate::dictionary::enc_opt_dependend_fields;
use crate::dictionary::dec_opt_dependend_fields;
use crate::dictionary::encode_opt_dependend_fields;
use crate::dictionary::decode_opt_dependend_fields;
use crate::dictionary::view_opt_dependend_fields;
use crate::dictionary::lemma_dependend_fields_round_trip;
use crate::dictionary::DependendField;
use crate::dictionary::DependendFieldModel;
use crate::dictionary::enc_opt_table;
use crate::dictionary::encode_opt_table;
use crate::dictionary::decode_opt_table;
use crate::dictionary::view_opt_table;
use crate::dictionary::lemma_table_round_trip;
use crate::dictionary::Table;
use crate::dictionary::TableModel;

verus! {

/// One browse field, with its value, display, editable and mandatory
/// attributes.
#[derive(Debug, Clone)]
pub struct BrowserField {
    pub uuid: Option<String>,
    pub id: Option<String>,
    pub internal_id: Option<i32>,
    pub column_name: Option<String>,
    pub name: Option<String>,
    pub description: Option<String>,
    pub help: Option<String>,
    pub display_type: Option<i32>,
    pub is_order_by: Option<bool>,
    pub sort_sequence: Option<i32>,
    pub is_key: Option<bool>,
    pub is_identifier: Option<bool>,
    pub is_range: Option<bool>,
    pub default_value: Option<String>,
    pub default_value_to: Option<String>,
    pub sequence: Option<i32>,
    pub grid_sequence: Option<i32>,
    pub is_displayed: Option<bool>,
    pub is_query_criteria: Option<bool>,
    pub is_read_only: Option<bool>,
    pub is_info_only: Option<bool>,
    pub is_mandatory: Option<bool>,
    pub element_name: Option<String>,
    pub context_column_names: Option<Vec<String>>,
    pub reference: Option<Reference>,
    pub dependent_fields: Option<Vec<DependendField>>,
}

/// The mathematical model of a [`BrowserField`].
pub struct BrowserFieldModel {
    pub uuid: Option<Seq<char>>,
    pub id: Option<Seq<char>>,
    pub internal_id: Option<i32>,
    pub column_name: Option<Seq<char>>,
    pub name: Option<Seq<char>>,
    pub description: Option<Seq<char>>,
    pub help: Option<Seq<char>>,
    pub display_type: Option<i32>,
    pub is_order_by: Option<bool>,
    pub sort_sequence: Option<i32>,
    pub is_key: Option<bool>,
    pub is_identifier: Option<bool>,
    pub is_range: Option<bool>,
    pub default_value: Option<Seq<char>>,
    pub default_value_to: Option<Seq<char>>,
    pub sequence: Option<i32>,
    pub grid_sequence: Option<i32>,
    pub is_displayed: Option<bool>,
    pub is_query_criteria: Option<bool>,
    pub is_read_only: Option<bool>,
    pub is_info_only: Option<bool>,
    pub is_mandatory: Option<bool>,
    pub element_name: Option<Seq<char>>,
    pub context_column_names: Option<Seq<Seq<char>>>,
    pub reference: Option<ReferenceModel>,
    pub dependent_fields: Option<Seq<DependendFieldModel>>,
}

impl BrowserField {
    pub open spec fn model(self) -> BrowserFieldModel {
        BrowserFieldModel {
            uuid: view_opt(self.uuid),
            id: view_opt(self.id),
            internal_id: self.internal_id,
            column_name: view_opt(self.column_name),
            name: view_opt(self.name),
            description: view_opt(self.description),
            help: view_opt(self.help),
            display_type: self.display_type,
            is_order_by: self.is_order_by,
            sort_sequence: self.sort_sequence,
            is_key: self.is_key,
            is_identifier: self.is_identifier,
            is_range: self.is_range,
            default_value: view_opt(self.default_value),
            default_value_to: view_opt(self.default_value_to),
            sequence: self.sequence,
            grid_sequence: self.grid_sequence,
            is_displayed: self.is_displayed,
            is_query_criteria: self.is_query_criteria,
            is_read_only: self.is_read_only,
            is_info_only: self.is_info_only,
            is_mandatory: self.is_mandatory,
            element_name: view_opt(self.element_name),
            context_column_names: view_opt_texts(self.context_column_names),
            reference: view_opt_reference(self.reference),
            dependent_fields: view_opt_dependend_fields(self.dependent_fields),
        }
    }

    pub open spec fn empty_model() -> BrowserFieldModel {
        BrowserFieldModel {
            uuid: Option::None,
            id: Option::None,
            internal_id: Option::None,
            column_name: Option::None,
            name: Option::None,
            description: Option::None,
            help: Option::None,
            display_type: Option::None,
            is_order_by: Option::None,
            sort_sequence: Option::None,
            is_key: Option::None,
            is_identifier: Option::None,
            is_range: Option::None,
            default_value: Option::None,
            default_value_to: Option::None,
            sequence: Option::None,
            grid_sequence: Option::None,
            is_displayed: Option::None,
            is_query_criteria: Option::None,
            is_read_only: Option::None,
            is_info_only: Option::None,
            is_mandatory: Option::None,
            element_name: Option::None,
            context_column_names: Option::None,
            reference: Option::None,
            dependent_fields: Option::None,
        }
    }

    /// The stored shape: every field present under its key, absent values
    /// as null.
    pub open spec fn enc(m: BrowserFieldModel) -> ValModel {
        ValModel::Object(
            seq![
                (Key::Uuid, enc_opt_text(m.uuid)),
                (Key::Id, enc_opt_text(m.id)),
                (Key::InternalId, enc_opt_i32(m.internal_id)),
                (Key::ColumnName, enc_opt_text(m.column_name)),
                (Key::Name, enc_opt_text(m.name)),
                (Key::Description, enc_opt_text(m.description)),
                (Key::Help, enc_opt_text(m.help)),
                (Key::DisplayType, enc_opt_i32(m.display_type)),
                (Key::IsOrderBy, enc_opt_bool(m.is_order_by)),
                (Key::SortSequence, enc_opt_i32(m.sort_sequence)),
                (Key::IsKey, enc_opt_bool(m.is_key)),
                (Key::IsIdentifier, enc_opt_bool(m.is_identifier)),
                (Key::IsRange, enc_opt_bool(m.is_range)),
                (Key::DefaultValue, enc_opt_text(m.default_value)),
                (Key::DefaultValueTo, enc_opt_text(m.default_value_to)),
                (Key::Sequence, enc_opt_i32(m.sequence)),
                (Key::GridSequence, enc_opt_i32(m.grid_sequence)),
                (Key::IsDisplayed, enc_opt_bool(m.is_displayed)),
                (Key::IsQueryCriteria, enc_opt_bool(m.is_query_criteria)),
                (Key::IsReadOnly, enc_opt_bool(m.is_read_only)),
                (Key::IsInfoOnly, enc_opt_bool(m.is_info_only)),
                (Key::IsMandatory, enc_opt_bool(m.is_mandatory)),
                (Key::ElementName, enc_opt_text(m.element_name)),
                (Key::ContextColumnNames, enc_opt_texts(m.context_column_names)),
                (Key::Reference, enc_opt_reference(m.reference)),
                (Key::DependentFields, enc_opt_dependend_fields(m.dependent_fields)),
            ],
        )
    }

    /// One decoding step: a recognized key sets its field; unknown keys are
    /// ignored.
    pub open spec fn apply_field(m: BrowserFieldModel, k: Key, v: ValModel) -> BrowserFieldModel {
        match k {
            Key::Uuid => BrowserFieldModel { uuid: dec_opt_text(v), ..m },
            Key::Id => BrowserFieldModel { id: dec_opt_text(v), ..m },
            Key::InternalId => BrowserFieldModel { internal_id: dec_opt_i32(v), ..m },
            Key::ColumnName => BrowserFieldModel { column_name: dec_opt_text(v), ..m },
            Key::Name => BrowserFieldModel { name: dec_opt_text(v), ..m },
            Key::Description => BrowserFieldModel { description: dec_opt_text(v), ..m },
            Key::Help => BrowserFieldModel { help: dec_opt_text(v), ..m },
            Key::DisplayType => BrowserFieldModel { display_type: dec_opt_i32(v), ..m },
            Key::IsOrderBy => BrowserFieldModel { is_order_by: dec_opt_bool(v), ..m },
            Key::SortSequence => BrowserFieldModel { sort_sequence: dec_opt_i32(v), ..m },
            Key::IsKey => BrowserFieldModel { is_key: dec_opt_bool(v), ..m },
            Key::IsIdentifier => BrowserFieldModel { is_identifier: dec_opt_bool(v), ..m },
            Key::IsRange => BrowserFieldModel { is_range: dec_opt_bool(v), ..m },
            Key::DefaultValue => BrowserFieldModel { default_value: dec_opt_text(v), ..m },
            Key::DefaultValueTo => BrowserFieldModel { default_value_to: dec_opt_text(v), ..m },
            Key::Sequence => BrowserFieldModel { sequence: dec_opt_i32(v), ..m },
            Key::GridSequence => BrowserFieldModel { grid_sequence: dec_opt_i32(v), ..m },
            Key::IsDisplayed => BrowserFieldModel { is_displayed: dec_opt_bool(v), ..m },
            Key::IsQueryCriteria => BrowserFieldModel { is_query_criteria: dec_opt_bool(v), ..m },
            Key::IsReadOnly => BrowserFieldModel { is_read_only: dec_opt_bool(v), ..m },
            Key::IsInfoOnly => BrowserFieldModel { is_info_only: dec_opt_bool(v), ..m },
            Key::IsMandatory => BrowserFieldModel { is_mandatory: dec_opt_bool(v), ..m },
            Key::ElementName => BrowserFieldModel { element_name: dec_opt_text(v), ..m },
            Key::ContextColumnNames => BrowserFieldModel { context_column_names: dec_opt_texts(v), ..m },
            Key::Reference => BrowserFieldModel { reference: Reference::dec(v), ..m },
            Key::DependentFields => BrowserFieldModel { dependent_fields: dec_opt_dependend_fields(v), ..m },
            _ => m,
        }
    }

    pub open spec fn fold_fields(m: BrowserFieldModel, fs: Seq<(Key, ValModel)>, i: int) -> BrowserFieldModel
        decreases fs.len() - i,
    {
        if i < 0 || i >= fs.len() {
            m
        } else {
            BrowserField::fold_fields(BrowserField::apply_field(m, fs[i].0, fs[i].1), fs, i + 1)
        }
    }

    /// Decoding of a stored document into a model; only objects decode.
    pub open spec fn dec(v: ValModel) -> Option<BrowserFieldModel> {
        match v {
            ValModel::Object(fs) => Option::Some(BrowserField::fold_fields(BrowserField::empty_model(), fs, 0)),
            _ => Option::None,
        }
    }

    pub fn empty() -> (r: BrowserField)
        ensures
            r.model() == BrowserField::empty_model(),
    {
        BrowserField {
            uuid: Option::None,
            id: Option::None,
            internal_id: Option::None,
            column_name: Option::None,
            name: Option::None,
            description: Option::None,
            help: Option::None,
            display_type: Option::None,
            is_order_by: Option::None,
            sort_sequence: Option::None,
            is_key: Option::None,
            is_identifier: Option::None,
            is_range: Option::None,
            default_value: Option::None,
            default_value_to: Option::None,
            sequence: Option::None,
            grid_sequence: Option::None,
            is_displayed: Option::None,
            is_query_criteria: Option::None,
            is_read_only: Option::None,
            is_info_only: Option::None,
            is_mandatory: Option::None,
            element_name: Option::None,
            context_column_names: Option::None,
            reference: Option::None,
            dependent_fields: Option::None,
        }
    }

    /// The stored payload of this record.
    pub fn encode(&self) -> (r: Value)
        ensures
            r.model() == BrowserField::enc(self.model()),
    {
        let mut fs: Vec<(Key, Value)> = Vec::new();
        fs.push((Key::Uuid, encode_opt_text(&self.uuid)));
        fs.push((Key::Id, encode_opt_text(&self.id)));
        fs.push((Key::InternalId, encode_opt_i32(&self.internal_id)));
        fs.push((Key::ColumnName, encode_opt_text(&self.column_name)));
        fs.push((Key::Name, encode_opt_text(&self.name)));
        fs.push((Key::Description, encode_opt_text(&self.description)));
        fs.push((Key::Help, encode_opt_text(&self.help)));
        fs.push((Key::DisplayType, encode_opt_i32(&self.display_type)));
        fs.push((Key::IsOrderBy, encode_opt_bool(&self.is_order_by)));
        fs.push((Key::SortSequence, encode_opt_i32(&self.sort_sequence)));
        fs.push((Key::IsKey, encode_opt_bool(&self.is_key)));
        fs.push((Key::IsIdentifier, encode_opt_bool(&self.is_identifier)));
        fs.push((Key::IsRange, encode_opt_bool(&self.is_range)));
        fs.push((Key::DefaultValue, encode_opt_text(&self.default_value)));
        fs.push((Key::DefaultValueTo, encode_opt_text(&self.default_value_to)));
        fs.push((Key::Sequence, encode_opt_i32(&self.sequence)));
        fs.push((Key::GridSequence, encode_opt_i32(&self.grid_sequence)));
        fs.push((Key::IsDisplayed, encode_opt_bool(&self.is_displayed)));
        fs.push((Key::IsQueryCriteria, encode_opt_bool(&self.is_query_criteria)));
        fs.push((Key::IsReadOnly, encode_opt_bool(&self.is_read_only)));
        fs.push((Key::IsInfoOnly, encode_opt_bool(&self.is_info_only)));
        fs.push((Key::IsMandatory, encode_opt_bool(&self.is_mandatory)));
        fs.push((Key::ElementName, encode_opt_text(&self.element_name)));
        fs.push((Key::ContextColumnNames, encode_opt_texts(&self.context_column_names)));
        fs.push((Key::Reference, encode_opt_reference(&self.reference)));
        fs.push((Key::DependentFields, encode_opt_dependend_fields(&self.dependent_fields)));
        proof {
            lemma_fields_of(fs@);
            let target = BrowserField::enc(self.model())->Object_0;
            assert forall|j: int| 0 <= j < fs@.len() implies Value::fields_of(fs@)[j]
                == target[j] by {
                assert(Value::fields_of(fs@)[j] == (fs@[j].0, fs@[j].1.model()));
            }
            assert(Value::fields_of(fs@) =~= target);
        }
        Value::Object(fs)
    }

    /// Decoding of a stored document; inverse of [`BrowserField::encode`] on the
    /// models.
    pub fn decode(v: &Value) -> (r: Option<BrowserField>)
        ensures
            match (r, BrowserField::dec(v.model())) {
                (Option::Some(x), Option::Some(m)) => x.model() == m,
                (Option::None, Option::None) => true,
                _ => false,
            },
    {
        match v {
            Value::Object(fs) => {
                let ghost fsm = Value::fields_of(fs@);
                proof {
                    lemma_fields_of(fs@);
                }
                let mut out = BrowserField::empty();
                let mut i: usize = 0;
                while i < fs.len()
                    invariant
                        0 <= i <= fs@.len(),
                        fsm == Value::fields_of(fs@),
                        fsm.len() == fs@.len(),
                        forall|k: int|
                            0 <= k < fs@.len() ==> fsm[k] == (#[trigger] fs@[k].0, fs@[k].1.model()),
                        BrowserField::fold_fields(BrowserField::empty_model(), fsm, 0)
                            == BrowserField::fold_fields(out.model(), fsm, i as int),
                    decreases fs@.len() - i,
                {
                    let ghost before = out.model();
                    let (k, v) = &fs[i];
                    match k {
                        Key::Uuid => out.uuid = decode_opt_text(v),
                        Key::Id => out.id = decode_opt_text(v),
                        Key::InternalId => out.internal_id = decode_opt_i32(v),
                        Key::ColumnName => out.column_name = decode_opt_text(v),
                        Key::Name => out.name = decode_opt_text(v),
                        Key::Description => out.description = decode_opt_text(v),
                        Key::Help => out.help = decode_opt_text(v),
                        Key::DisplayType => out.display_type = decode_opt_i32(v),
                        Key::IsOrderBy => out.is_order_by = decode_opt_bool(v),
                        Key::SortSequence => out.sort_sequence = decode_opt_i32(v),
                        Key::IsKey => out.is_key = decode_opt_bool(v),
                        Key::IsIdentifier => out.is_identifier = decode_opt_bool(v),
                        Key::IsRange => out.is_range = decode_opt_bool(v),
                        Key::DefaultValue => out.default_value = decode_opt_text(v),
                        Key::DefaultValueTo => out.default_value_to = decode_opt_text(v),
                        Key::Sequence => out.sequence = decode_opt_i32(v),
                        Key::GridSequence => out.grid_sequence = decode_opt_i32(v),
                        Key::IsDisplayed => out.is_displayed = decode_opt_bool(v),
                        Key::IsQueryCriteria => out.is_query_criteria = decode_opt_bool(v),
                        Key::IsReadOnly => out.is_read_only = decode_opt_bool(v),
                        Key::IsInfoOnly => out.is_info_only = decode_opt_bool(v),
                        Key::IsMandatory => out.is_mandatory = decode_opt_bool(v),
                        Key::ElementName => out.element_name = decode_opt_text(v),
                        Key::ContextColumnNames => out.context_column_names = decode_opt_texts(v),
                        Key::Reference => out.reference = decode_opt_reference(v),
                        Key::DependentFields => out.dependent_fields = decode_opt_dependend_fields(v),
                        _ => {
                        },
                    }
                    proof {
                        assert(out.model() == BrowserField::apply_field(before, fsm[i as int].0, fsm[i as int].1));
                    }
                    i = i + 1;
                }
                Option::Some(out)
            },
            _ => Option::None,
        }
    }
}

/// The model of an optional browser field record.
pub open spec fn view_opt_browser_field(o: Option<BrowserField>) -> Option<BrowserFieldModel> {
    match o {
        Option::None => Option::None,
        Option::Some(x) => Option::Some(x.model()),
    }
}

pub open spec fn enc_opt_browser_field(o: Option<BrowserFieldModel>) -> ValModel {
    match o {
        Option::None => ValModel::Null,
        Option::Some(m) => BrowserField::enc(m),
    }
}

pub fn encode_opt_browser_field(o: &Option<BrowserField>) -> (r: Value)
    ensures
        r.model() == enc_opt_browser_field(view_opt_browser_field(*o)),
{
    match o {
        Option::None => Value::Null,
        Option::Some(x) => x.encode(),
    }
}

pub fn decode_opt_browser_field(v: &Value) -> (r: Option<BrowserField>)
    ensures
        view_opt_browser_field(r) == BrowserField::dec(v.model()),
{
    BrowserField::decode(v)
}

/// Decoding inverts encoding for every browser field record.
#[verifier::rlimit(100)]
pub proof fn lemma_browser_field_round_trip(m: BrowserFieldModel)
    ensures
        BrowserField::dec(BrowserField::enc(m)) == Option::Some(m),
{
    lemma_opt_texts_round_trip(m.context_column_names);
    match m.reference {
        Option::Some(a) => lemma_reference_round_trip(a),
        Option::None => {
        },
    }
    match m.dependent_fields {
        Option::Some(s) => lemma_dependend_fields_round_trip(s),
        Option::None => {
        },
    }
    let fs = BrowserField::enc(m)->Object_0;
    let s0 = BrowserField::empty_model();
    let s1 = BrowserField::apply_field(s0, fs[0].0, fs[0].1);
    let s2 = BrowserField::apply_field(s1, fs[1].0, fs[1].1);
    let s3 = BrowserField::apply_field(s2, fs[2].0, fs[2].1);
    let s4 = BrowserField::apply_field(s3, fs[3].0, fs[3].1);
    let s5 = BrowserField::apply_field(s4, fs[4].0, fs[4].1);
    let s6 = BrowserField::apply_field(s5, fs[5].0, fs[5].1);
    let s7 = BrowserField::apply_field(s6, fs[6].0, fs[6].1);
    let s8 = BrowserField::apply_field(s7, fs[7].0, fs[7].1);
    let s9 = BrowserField::apply_field(s8, fs[8].0, fs[8].1);
    let s10 = BrowserField::apply_field(s9, fs[9].0, fs[9].1);
    let s11 = BrowserField::apply_field(s10, fs[10].0, fs[10].1);
    let s12 = BrowserField::apply_field(s11, fs[11].0, fs[11].1);
    let s13 = BrowserField::apply_field(s12, fs[12].0, fs[12].1);
    let s14 = BrowserField::apply_field(s13, fs[13].0, fs[13].1);
    let s15 = BrowserField::apply_field(s14, fs[14].0, fs[14].1);
    let s16 = BrowserField::apply_field(s15, fs[15].0, fs[15].1);
    let s17 = BrowserField::apply_field(s16, fs[16].0, fs[16].1);
    let s18 = BrowserField::apply_field(s17, fs[17].0, fs[17].1);
    let s19 = BrowserField::apply_field(s18, fs[18].0, fs[18].1);
    let s20 = BrowserField::apply_field(s19, fs[19].0, fs[19].1);
    let s21 = BrowserField::apply_field(s20, fs[20].0, fs[20].1);
    let s22 = BrowserField::apply_field(s21, fs[21].0, fs[21].1);
    let s23 = BrowserField::apply_field(s22, fs[22].0, fs[22].1);
    let s24 = BrowserField::apply_field(s23, fs[23].0, fs[23].1);
    let s25 = BrowserField::apply_field(s24, fs[24].0, fs[24].1);
    let s26 = BrowserField::apply_field(s25, fs[25].0, fs[25].1);
    assert(BrowserField::fold_fields(s26, fs, 26) == s26);
    assert(BrowserField::fold_fields(s25, fs, 25) == s26);
    assert(BrowserField::fold_fields(s24, fs, 24) == s26);
    assert(BrowserField::fold_fields(s23, fs, 23) == s26);
    assert(BrowserField::fold_fields(s22, fs, 22) == s26);
    assert(BrowserField::fold_fields(s21, fs, 21) == s26);
    assert(BrowserField::fold_fields(s20, fs, 20) == s26);
    assert(BrowserField::fold_fields(s19, fs, 19) == s26);
    assert(BrowserField::fold_fields(s18, fs, 18) == s26);
    assert(BrowserField::fold_fields(s17, fs, 17) == s26);
    assert(BrowserField::fold_fields(s16, fs, 16) == s26);
    assert(BrowserField::fold_fields(s15, fs, 15) == s26);
    assert(BrowserField::fold_fields(s14, fs, 14) == s26);
    assert(BrowserField::fold_fields(s13, fs, 13) == s26);
    assert(BrowserField::fold_fields(s12, fs, 12) == s26);
    assert(BrowserField::fold_fields(s11, fs, 11) == s26);
    assert(BrowserField::fold_fields(s10, fs, 10) == s26);
    assert(BrowserField::fold_fields(s9, fs, 9) == s26);
    assert(BrowserField::fold_fields(s8, fs, 8) == s26);
    assert(BrowserField::fold_fields(s7, fs, 7) == s26);
    assert(BrowserField::fold_fields(s6, fs, 6) == s26);
    assert(BrowserField::fold_fields(s5, fs, 5) == s26);
    assert(BrowserField::fold_fields(s4, fs, 4) == s26);
    assert(BrowserField::fold_fields(s3, fs, 3) == s26);
    assert(BrowserField::fold_fields(s2, fs, 2) == s26);
    assert(BrowserField::fold_fields(s1, fs, 1) == s26);
    assert(BrowserField::fold_fields(s0, fs, 0) == s26);
    assert(s26 == m);
}

/// Encoding of a sequence of browser field records.
pub open spec fn enc_browser_fields(s: Seq<BrowserFieldModel>) -> Seq<ValModel>
    decreases s,
{
    if s.len() == 0 {
        Seq::empty()
    } else {
        seq![BrowserField::enc(s[0])] + enc_browser_fields(s.drop_first())
    }
}

/// Decoding of a list of browser field records; elements that do not
/// decode are ignored.
pub open spec fn dec_browser_fields(items: Seq<ValModel>) -> Seq<BrowserFieldModel>
    decreases items,
{
    if items.len() == 0 {
        Seq::empty()
    } else {
        match BrowserField::dec(items[0]) {
            Option::Some(m) => seq![m] + dec_browser_fields(items.drop_first()),
            Option::None => dec_browser_fields(items.drop_first()),
        }
    }
}

pub open spec fn enc_opt_browser_fields(o: Option<Seq<BrowserFieldModel>>) -> ValModel {
    match o {
        Option::None => ValModel::Null,
        Option::Some(s) => ValModel::List(enc_browser_fields(s)),
    }
}

pub open spec fn dec_opt_browser_fields(v: ValModel) -> Option<Seq<BrowserFieldModel>> {
    match v {
        ValModel::List(items) => Option::Some(dec_browser_fields(items)),
        _ => Option::None,
    }
}

/// The model of an optional vector of browser field records.
pub open spec fn view_opt_browser_fields(o: Option<Vec<BrowserField>>) -> Option<Seq<BrowserFieldModel>> {
    match o {
        Option::None => Option::None,
        Option::Some(v) => Option::Some(Seq::new(v@.len(), |i: int| v@[i].model())),
    }
}

/// `enc_browser_fields` indexes point-wise.
pub proof fn lemma_enc_browser_fields_index(s: Seq<BrowserFieldModel>)
    ensures
        enc_browser_fields(s).len() == s.len(),
        forall|i: int| 0 <= i < s.len() ==> enc_browser_fields(s)[i] == BrowserField::enc(#[trigger] s[i]),
    decreases s,
{
    if s.len() > 0 {
        lemma_enc_browser_fields_index(s.drop_first());
        assert forall|i: int| 0 <= i < s.len() implies enc_browser_fields(s)[i] == BrowserField::enc(
            #[trigger] s[i],
        ) by {
            if i > 0 {
                assert(s.drop_first()[i - 1] == s[i]);
                assert(enc_browser_fields(s)[i] == enc_browser_fields(s.drop_first())[i - 1]);
            }
        }
    }
}

/// List decode inverts list encode, element by element.
pub proof fn lemma_browser_fields_round_trip(s: Seq<BrowserFieldModel>)
    ensures
        dec_browser_fields(enc_browser_fields(s)) == s,
    decreases s,
{
    if s.len() == 0 {
        assert(dec_browser_fields(enc_browser_fields(s)) =~= s);
    } else {
        lemma_browser_field_round_trip(s[0]);
        lemma_browser_fields_round_trip(s.drop_first());
        assert(enc_browser_fields(s).drop_first() =~= enc_browser_fields(s.drop_first()));
        assert(seq![s[0]] + s.drop_first() =~= s);
    }
}

pub fn encode_opt_browser_fields(o: &Option<Vec<BrowserField>>) -> (r: Value)
    ensures
        r.model() == enc_opt_browser_fields(view_opt_browser_fields(*o)),
{
    match o {
        Option::None => Value::Null,
        Option::Some(v) => {
            let mut out: Vec<Value> = Vec::new();
            let mut i: usize = 0;
            while i < v.len()
                invariant
                    0 <= i <= v@.len(),
                    out@.len() == i,
                    forall|j: int| 0 <= j < i ==> #[trigger] out@[j].model() == BrowserField::enc(v@[j].model()),
                decreases v@.len() - i,
            {
                out.push(v[i].encode());
                i = i + 1;
            }
            proof {
                let vs = view_opt_browser_fields(*o)->Some_0;
                lemma_models_of(out@);
                lemma_enc_browser_fields_index(vs);
                assert forall|j: int| 0 <= j < out@.len() implies Value::models_of(out@)[j]
                    == enc_browser_fields(vs)[j] by {
                    assert(out@[j].model() == BrowserField::enc(v@[j].model()));
                    assert(vs[j] == v@[j].model());
                }
                assert(Value::models_of(out@) =~= enc_browser_fields(vs));
            }
            Value::List(out)
        },
    }
}

pub fn decode_opt_browser_fields(v: &Value) -> (r: Option<Vec<BrowserField>>)
    ensures
        view_opt_browser_fields(r) == dec_opt_browser_fields(v.model()),
{
    match v {
        Value::List(items) => {
            let mut out: Vec<BrowserField> = Vec::new();
            let mut i: usize = 0;
            let ghost ms = Value::models_of(items@);
            proof {
                lemma_models_of(items@);
                assert(ms.subrange(0, ms.len() as int) =~= ms);
                assert(Seq::new(0, |j: int| out@[j].model()) + dec_browser_fields(ms) =~= dec_browser_fields(ms));
            }
            while i < items.len()
                invariant
                    0 <= i <= items@.len(),
                    ms == Value::models_of(items@),
                    ms.len() == items@.len(),
                    forall|k: int| 0 <= k < items@.len() ==> ms[k] == #[trigger] items@[k].model(),
                    dec_browser_fields(ms) == Seq::new(out@.len(), |j: int| out@[j].model()) + dec_browser_fields(
                        ms.subrange(i as int, ms.len() as int),
                    ),
                decreases items@.len() - i,
            {
                let ghost prev = Seq::new(out@.len(), |j: int| out@[j].model());
                let ghost rest = ms.subrange(i as int, ms.len() as int);
                proof {
                    assert(rest[0] == ms[i as int]);
                    assert(rest.drop_first() =~= ms.subrange(i + 1, ms.len() as int));
                    assert(ms[i as int] == items@[i as int].model());
                }
                match BrowserField::decode(&items[i]) {
                    Option::Some(x) => {
                        out.push(x);
                        proof {
                            assert(Seq::new(out@.len(), |j: int| out@[j].model()) =~= prev
                                + seq![out@[out@.len() - 1].model()]);
                            assert(prev + seq![out@[out@.len() - 1].model()] + dec_browser_fields(
                                ms.subrange(i + 1, ms.len() as int),
                            ) =~= prev + (seq![out@[out@.len() - 1].model()] + dec_browser_fields(
                                ms.subrange(i + 1, ms.len() as int),
                            )));
                        }
                    },
                    Option::None => {
                    },
                }
                i = i + 1;
            }
            proof {
                assert(ms.subrange(ms.len() as int, ms.len() as int) =~= Seq::<ValModel>::empty());
                assert(dec_browser_fields(ms) =~= Seq::new(out@.len(), |j: int| out@[j].model()));
            }
            Option::Some(out)
        },
        _ => Option::None,
    }
}


/// A smart-browser dictionary object, with its backing table and its
/// browse fields.
#[derive(Debug, Clone)]
pub struct Browser {
    pub uuid: Option<String>,
    pub internal_id: Option<i32>,
    pub id: Option<String>,
    pub code: Option<String>,
    pub name: Option<String>,
    pub description: Option<String>,
    pub help: Option<String>,
    pub is_active: Option<bool>,
    pub is_beta_functionality: Option<bool>,
    pub is_execute_query_by_default: Option<bool>,
    pub is_collapsible_by_default: Option<bool>,
    pub is_selected_by_default: Option<bool>,
    pub is_show_total: Option<bool>,
    pub field_key: Option<String>,
    pub access_level: Option<String>,
    pub is_updateable: Option<bool>,
    pub is_deleteable: Option<bool>,
    pub table_name: Option<String>,
    pub table: Option<Table>,
    pub index_value: Option<String>,
    pub language: Option<String>,
    pub client_id: Option<String>,
    pub role_id: Option<String>,
    pub user_id: Option<String>,
    pub context_column_names: Option<Vec<String>>,
    pub process_id: Option<i32>,
    pub process_uuid: Option<String>,
    pub process: Option<DictionaryEntity>,
    pub window_id: Option<i32>,
    pub window: Option<DictionaryEntity>,
    pub is_search_process: Option<bool>,
    pub fields: Option<Vec<BrowserField>>,
}

/// The mathematical model of a [`Browser`].
pub struct BrowserModel {
    pub uuid: Option<Seq<char>>,
    pub internal_id: Option<i32>,
    pub id: Option<Seq<char>>,
    pub code: Option<Seq<char>>,
    pub name: Option<Seq<char>>,
    pub description: Option<Seq<char>>,
    pub help: Option<Seq<char>>,
    pub is_active: Option<bool>,
    pub is_beta_functionality: Option<bool>,
    pub is_execute_query_by_default: Option<bool>,
    pub is_collapsible_by_default: Option<bool>,
    pub is_selected_by_default: Option<bool>,
    pub is_show_total: Option<bool>,
    pub field_key: Option<Seq<char>>,
    pub access_level: Option<Seq<char>>,
    pub is_updateable: Option<bool>,
    pub is_deleteable: Option<bool>,
    pub table_name: Option<Seq<char>>,
    pub table: Option<TableModel>,
    pub index_value: Option<Seq<char>>,
    pub language: Option<Seq<char>>,
    pub client_id: Option<Seq<char>>,
    pub role_id: Option<Seq<char>>,
    pub user_id: Option<Seq<char>>,
    pub context_column_names: Option<Seq<Seq<char>>>,
    pub process_id: Option<i32>,
    pub process_uuid: Option<Seq<char>>,
    pub process: Option<DictionaryEntityModel>,
    pub window_id: Option<i32>,
    pub window: Option<DictionaryEntityModel>,
    pub is_search_process: Option<bool>,
    pub fields: Option<Seq<BrowserFieldModel>>,
}

impl Browser {
    pub open spec fn model(self) -> BrowserModel {
        BrowserModel {
            uuid: view_opt(self.uuid),
            internal_id: self.internal_id,
            id: view_opt(self.id),
            code: view_opt(self.code),
            name: view_opt(self.name),
            description: view_opt(self.description),
            help: view_opt(self.help),
            is_active: self.is_active,
            is_beta_functionality: self.is_beta_functionality,
            is_execute_query_by_default: self.is_execute_query_by_default,
            is_collapsible_by_default: self.is_collapsible_by_default,
            is_selected_by_default: self.is_selected_by_default,
            is_show_total: self.is_show_total,
            field_key: view_opt(self.field_key),
            access_level: view_opt(self.access_level),
            is_updateable: self.is_updateable,
            is_deleteable: self.is_deleteable,
            table_name: view_opt(self.table_name),
            table: view_opt_table(self.table),
            index_value: view_opt(self.index_value),
            language: view_opt(self.language),
            client_id: view_opt(self.client_id),
            role_id: view_opt(self.role_id),
            user_id: view_opt(self.user_id),
            context_column_names: view_opt_texts(self.context_column_names),
            process_id: self.process_id,
            process_uuid: view_opt(self.process_uuid),
            process: view_opt_dictionary_entity(self.process),
            window_id: self.window_id,
            window: view_opt_dictionary_entity(self.window),
            is_search_process: self.is_search_process,
            fields: view_opt_browser_fields(self.fields),
        }
    }

    pub open spec fn empty_model() -> BrowserModel {
        BrowserModel {
            uuid: Option::None,
            internal_id: Option::None,
            id: Option::None,
            code: Option::None,
            name: Option::None,
            description: Option::None,
            help: Option::None,
            is_active: Option::None,
            is_beta_functionality: Option::None,
            is_execute_query_by_default: Option::None,
            is_collapsible_by_default: Option::None,
            is_selected_by_default: Option::None,
            is_show_total: Option::None,
            field_key: Option::None,
            access_level: Option::None,
            is_updateable: Option::None,
            is_deleteable: Option::None,
            table_name: Option::None,
            table: Option::None,
            index_value: Option::None,
            language: Option::None,
            client_id: Option::None,
            role_id: Option::None,
            user_id: Option::None,
            context_column_names: Option::None,
            process_id: Option::None,
            process_uuid: Option::None,
            process: Option::None,
            window_id: Option::None,
            window: Option::None,
            is_search_process: Option::None,
            fields: Option::None,
        }
    }

    /// The stored shape: every field present under its key, absent values
    /// as null.
    pub open spec fn enc(m: BrowserModel) -> ValModel {
        ValModel::Object(
            seq![
                (Key::Uuid, enc_opt_text(m.uuid)),
                (Key::InternalId, enc_opt_i32(m.internal_id)),
                (Key::Id, enc_opt_text(m.id)),
                (Key::Code, enc_opt_text(m.code)),
                (Key::Name, enc_opt_text(m.name)),
                (Key::Description, enc_opt_text(m.description)),
                (Key::Help, enc_opt_text(m.help)),
                (Key::IsActive, enc_opt_bool(m.is_active)),
                (Key::IsBetaFunctionality, enc_opt_bool(m.is_beta_functionality)),
                (Key::IsExecuteQueryByDefault, enc_opt_bool(m.is_execute_query_by_default)),
                (Key::IsCollapsibleByDefault, enc_opt_bool(m.is_collapsible_by_default)),
                (Key::IsSelectedByDefault, enc_opt_bool(m.is_selected_by_default)),
                (Key::IsShowTotal, enc_opt_bool(m.is_show_total)),
                (Key::FieldKey, enc_opt_text(m.field_key)),
                (Key::AccessLevel, enc_opt_text(m.access_level)),
                (Key::IsUpdateable, enc_opt_bool(m.is_updateable)),
                (Key::IsDeleteable, enc_opt_bool(m.is_deleteable)),
                (Key::TableName, enc_opt_text(m.table_name)),
                (Key::Table, enc_opt_table(m.table)),
                (Key::IndexValue, enc_opt_text(m.index_value)),
                (Key::Language, enc_opt_text(m.language)),
                (Key::ClientId, enc_opt_text(m.client_id)),
                (Key::RoleId, enc_opt_text(m.role_id)),
                (Key::UserId, enc_opt_text(m.user_id)),
                (Key::ContextColumnNames, enc_opt_texts(m.context_column_names)),
                (Key::ProcessId, enc_opt_i32(m.process_id)),
                (Key::ProcessUuid, enc_opt_text(m.process_uuid)),
                (Key::Process, enc_opt_dictionary_entity(m.process)),
                (Key::WindowId, enc_opt_i32(m.window_id)),
                (Key::Window, enc_opt_dictionary_entity(m.window)),
                (Key::IsSearchProcess, enc_opt_bool(m.is_search_process)),
                (Key::Fields, enc_opt_browser_fields(m.fields)),
            ],
        )
    }

    /// One decoding step: a recognized key sets its field; unknown keys are
    /// ignored.
    pub open spec fn apply_field(m: BrowserModel, k: Key, v: ValModel) -> BrowserModel {
        match k {
            Key::Uuid => BrowserModel { uuid: dec_opt_text(v), ..m },
            Key::InternalId => BrowserModel { internal_id: dec_opt_i32(v), ..m },
            Key::Id => BrowserModel { id: dec_opt_text(v), ..m },
            Key::Code => BrowserModel { code: dec_opt_text(v), ..m },
            Key::Name => BrowserModel { name: dec_opt_text(v), ..m },
            Key::Description => BrowserModel { description: dec_opt_text(v), ..m },
            Key::Help => BrowserModel { help: dec_opt_text(v), ..m },
            Key::IsActive => BrowserModel { is_active: dec_opt_bool(v), ..m },
            Key::IsBetaFunctionality => BrowserModel { is_beta_functionality: dec_opt_bool(v), ..m },
            Key::IsExecuteQueryByDefault => BrowserModel { is_execute_query_by_default: dec_opt_bool(v), ..m },
            Key::IsCollapsibleByDefault => BrowserModel { is_collapsible_by_default: dec_opt_bool(v), ..m },
            Key::IsSelectedByDefault => BrowserModel { is_selected_by_default: dec_opt_bool(v), ..m },
            Key::IsShowTotal => BrowserModel { is_show_total: dec_opt_bool(v), ..m },
            Key::FieldKey => BrowserModel { field_key: dec_opt_text(v), ..m },
            Key::AccessLevel => BrowserModel { access_level: dec_opt_text(v), ..m },
            Key::IsUpdateable => BrowserModel { is_updateable: dec_opt_bool(v), ..m },
            Key::IsDeleteable => BrowserModel { is_deleteable: dec_opt_bool(v), ..m },
            Key::TableName => BrowserModel { table_name: dec_opt_text(v), ..m },
            Key::Table => BrowserModel { table: Table::dec(v), ..m },
            Key::IndexValue => BrowserModel { index_value: dec_opt_text(v), ..m },
            Key::Language => BrowserModel { language: dec_opt_text(v), ..m },
            Key::ClientId => BrowserModel { client_id: dec_opt_text(v), ..m },
            Key::RoleId => BrowserModel { role_id: dec_opt_text(v), ..m },
            Key::UserId => BrowserModel { user_id: dec_opt_text(v), ..m },
            Key::ContextColumnNames => BrowserModel { context_column_names: dec_opt_texts(v), ..m },
            Key::ProcessId => BrowserModel { process_id: dec_opt_i32(v), ..m },
            Key::ProcessUuid => BrowserModel { process_uuid: dec_opt_text(v), ..m },
            Key::Process => BrowserModel { process: DictionaryEntity::dec(v), ..m },
            Key::WindowId => BrowserModel { window_id: dec_opt_i32(v), ..m },
            Key::Window => BrowserModel { window: DictionaryEntity::dec(v), ..m },
            Key::IsSearchProcess => BrowserModel { is_search_process: dec_opt_bool(v), ..m },
            Key::Fields => BrowserModel { fields: dec_opt_browser_fields(v), ..m },
            _ => m,
        }
    }

    pub open spec fn fold_fields(m: BrowserModel, fs: Seq<(Key, ValModel)>, i: int) -> BrowserModel
        decreases fs.len() - i,
    {
        if i < 0 || i >= fs.len() {
            m
        } else {
            Browser::fold_fields(Browser::apply_field(m, fs[i].0, fs[i].1), fs, i + 1)
        }
    }

    /// Decoding of a stored document into a model; only objects decode.
    pub open spec fn dec(v: ValModel) -> Option<BrowserModel> {
        match v {
            ValModel::Object(fs) => Option::Some(Browser::fold_fields(Browser::empty_model(), fs, 0)),
            _ => Option::None,
        }
    }

    pub fn empty() -> (r: Browser)
        ensures
            r.model() == Browser::empty_model(),
    {
        Browser {
            uuid: Option::None,
            internal_id: Option::None,
            id: Option::None,
            code: Option::None,
            name: Option::None,
            description: Option::None,
            help: Option::None,
            is_active: Option::None,
            is_beta_functionality: Option::None,
            is_execute_query_by_default: Option::None,
            is_collapsible_by_default: Option::None,
            is_selected_by_default: Option::None,
            is_show_total: Option::None,
            field_key: Option::None,
            access_level: Option::None,
            is_updateable: Option::None,
            is_deleteable: Option::None,
            table_name: Option::None,
            table: Option::None,
            index_value: Option::None,
            language: Option::None,
            client_id: Option::None,
            role_id: Option::None,
            user_id: Option::None,
            context_column_names: Option::None,
            process_id: Option::None,
            process_uuid: Option::None,
            process: Option::None,
            window_id: Option::None,
            window: Option::None,
            is_search_process: Option::None,
            fields: Option::None,
        }
    }

    /// The stored payload of this record.
    pub fn encode(&self) -> (r: Value)
        ensures
            r.model() == Browser::enc(self.model()),
    {
        let mut fs: Vec<(Key, Value)> = Vec::new();
        fs.push((Key::Uuid, encode_opt_text(&self.uuid)));
        fs.push((Key::InternalId, encode_opt_i32(&self.internal_id)));
        fs.push((Key::Id, encode_opt_text(&self.id)));
        fs.push((Key::Code, encode_opt_text(&self.code)));
        fs.push((Key::Name, encode_opt_text(&self.name)));
        fs.push((Key::Description, encode_opt_text(&self.description)));
        fs.push((Key::Help, encode_opt_text(&self.help)));
        fs.push((Key::IsActive, encode_opt_bool(&self.is_active)));
        fs.push((Key::IsBetaFunctionality, encode_opt_bool(&self.is_beta_functionality)));
        fs.push((Key::IsExecuteQueryByDefault, encode_opt_bool(&self.is_execute_query_by_default)));
        fs.push((Key::IsCollapsibleByDefault, encode_opt_bool(&self.is_collapsible_by_default)));
        fs.push((Key::IsSelectedByDefault, encode_opt_bool(&self.is_selected_by_default)));
        fs.push((Key::IsShowTotal, encode_opt_bool(&self.is_show_total)));
        fs.push((Key::FieldKey, encode_opt_text(&self.field_key)));
        fs.push((Key::AccessLevel, encode_opt_text(&self.access_level)));
        fs.push((Key::IsUpdateable, encode_opt_bool(&self.is_updateable)));
        fs.push((Key::IsDeleteable, encode_opt_bool(&self.is_deleteable)));
        fs.push((Key::TableName, encode_opt_text(&self.table_name)));
        fs.push((Key::Table, encode_opt_table(&self.table)));
        fs.push((Key::IndexValue, encode_opt_text(&self.index_value)));
        fs.push((Key::Language, encode_opt_text(&self.language)));
        fs.push((Key::ClientId, encode_opt_text(&self.client_id)));
        fs.push((Key::RoleId, encode_opt_text(&self.role_id)));
        fs.push((Key::UserId, encode_opt_text(&self.user_id)));
        fs.push((Key::ContextColumnNames, encode_opt_texts(&self.context_column_names)));
        fs.push((Key::ProcessId, encode_opt_i32(&self.process_id)));
        fs.push((Key::ProcessUuid, encode_opt_text(&self.process_uuid)));
        fs.push((Key::Process, encode_opt_dictionary_entity(&self.process)));
        fs.push((Key::WindowId, encode_opt_i32(&self.window_id)));
        fs.push((Key::Window, encode_opt_dictionary_entity(&self.window)));
        fs.push((Key::IsSearchProcess, encode_opt_bool(&self.is_search_process)));
        fs.push((Key::Fields, encode_opt_browser_fields(&self.fields)));
        proof {
            lemma_fields_of(fs@);
            let target = Browser::enc(self.model())->Object_0;
            assert forall|j: int| 0 <= j < fs@.len() implies Value::fields_of(fs@)[j]
                == target[j] by {
                assert(Value::fields_of(fs@)[j] == (fs@[j].0, fs@[j].1.model()));
            }
            assert(Value::fields_of(fs@) =~= target);
        }
        Value::Object(fs)
    }

    /// Decoding of a stored document; inverse of [`Browser::encode`] on the
    /// models.
    pub fn decode(v: &Value) -> (r: Option<Browser>)
        ensures
            match (r, Browser::dec(v.model())) {
                (Option::Some(x), Option::Some(m)) => x.model() == m,
                (Option::None, Option::None) => true,
                _ => false,
            },
    {
        match v {
            Value::Object(fs) => {
                let ghost fsm = Value::fields_of(fs@);
                proof {
                    lemma_fields_of(fs@);
                }
                let mut out = Browser::empty();
                let mut i: usize = 0;
                while i < fs.len()
                    invariant
                        0 <= i <= fs@.len(),
                        fsm == Value::fields_of(fs@),
                        fsm.len() == fs@.len(),
                        forall|k: int|
                            0 <= k < fs@.len() ==> fsm[k] == (#[trigger] fs@[k].0, fs@[k].1.model()),
                        Browser::fold_fields(Browser::empty_model(), fsm, 0)
                            == Browser::fold_fields(out.model(), fsm, i as int),
                    decreases fs@.len() - i,
                {
                    let ghost before = out.model();
                    let (k, v) = &fs[i];
                    match k {
                        Key::Uuid => out.uuid = decode_opt_text(v),
                        Key::InternalId => out.internal_id = decode_opt_i32(v),
                        Key::Id => out.id = decode_opt_text(v),
                        Key::Code => out.code = decode_opt_text(v),
                        Key::Name => out.name = decode_opt_text(v),
                        Key::Description => out.description = decode_opt_text(v),
                        Key::Help => out.help = decode_opt_text(v),
                        Key::IsActive => out.is_active = decode_opt_bool(v),
                        Key::IsBetaFunctionality => out.is_beta_functionality = decode_opt_bool(v),
                        Key::IsExecuteQueryByDefault => out.is_execute_query_by_default = decode_opt_bool(v),
                        Key::IsCollapsibleByDefault => out.is_collapsible_by_default = decode_opt_bool(v),
                        Key::IsSelectedByDefault => out.is_selected_by_default = decode_opt_bool(v),
                        Key::IsShowTotal => out.is_show_total = decode_opt_bool(v),
                        Key::FieldKey => out.field_key = decode_opt_text(v),
                        Key::AccessLevel => out.access_level = decode_opt_text(v),
                        Key::IsUpdateable => out.is_updateable = decode_opt_bool(v),
                        Key::IsDeleteable => out.is_deleteable = decode_opt_bool(v),
                        Key::TableName => out.table_name = decode_opt_text(v),
                        Key::Table => out.table = decode_opt_table(v),
                        Key::IndexValue => out.index_value = decode_opt_text(v),
                        Key::Language => out.language = decode_opt_text(v),
                        Key::ClientId => out.client_id = decode_opt_text(v),
                        Key::RoleId => out.role_id = decode_opt_text(v),
                        Key::UserId => out.user_id = decode_opt_text(v),
                        Key::ContextColumnNames => out.context_column_names = decode_opt_texts(v),
                        Key::ProcessId => out.process_id = decode_opt_i32(v),
                        Key::ProcessUuid => out.process_uuid = decode_opt_text(v),
                        Key::Process => out.process = decode_opt_dictionary_entity(v),
                        Key::WindowId => out.window_id = decode_opt_i32(v),
                        Key::Window => out.window = decode_opt_dictionary_entity(v),
                        Key::IsSearchProcess => out.is_search_process = decode_opt_bool(v),
                        Key::Fields => out.fields = decode_opt_browser_fields(v),
                        _ => {
                        },
                    }
                    proof {
                        assert(out.model() == Browser::apply_field(before, fsm[i as int].0, fsm[i as int].1));
                    }
                    i = i + 1;
                }
                Option::Some(out)
            },
            _ => Option::None,
        }
    }
}

/// The model of an optional browser record.
pub open spec fn view_opt_browser(o: Option<Browser>) -> Option<BrowserModel> {
    match o {
        Option::None => Option::None,
        Option::Some(x) => Option::Some(x.model()),
    }
}

pub open spec fn enc_opt_browser(o: Option<BrowserModel>) -> ValModel {
    match o {
        Option::None => ValModel::Null,
        Option::Some(m) => Browser::enc(m),
    }
}

pub fn encode_opt_browser(o: &Option<Browser>) -> (r: Value)
    ensures
        r.model() == enc_opt_browser(view_opt_browser(*o)),
{
    match o {
        Option::None => Value::Null,
        Option::Some(x) => x.encode(),
    }
}

pub fn decode_opt_browser(v: &Value) -> (r: Option<Browser>)
    ensures
        view_opt_browser(r) == Browser::dec(v.model()),
{
    Browser::decode(v)
}

/// Decoding inverts encoding for every browser record.
#[verifier::rlimit(100)]
pub proof fn lemma_browser_round_trip(m: BrowserModel)
    ensures
        Browser::dec(Browser::enc(m)) == Option::Some(m),
{
    match m.table {
        Option::Some(a) => lemma_table_round_trip(a),
        Option::None => {
        },
    }
    lemma_opt_texts_round_trip(m.context_column_names);
    match m.process {
        Option::Some(a) => lemma_dictionary_entity_round_trip(a),
        Option::None => {
        },
    }
    match m.window {
        Option::Some(a) => lemma_dictionary_entity_round_trip(a),
        Option::None => {
        },
    }
    match m.fields {
        Option::Some(s) => lemma_browser_fields_round_trip(s),
        Option::None => {
        },
    }
    let fs = Browser::enc(m)->Object_0;
    let s0 = Browser::empty_model();
    let s1 = Browser::apply_field(s0, fs[0].0, fs[0].1);
    let s2 = Browser::apply_field(s1, fs[1].0, fs[1].1);
    let s3 = Browser::apply_field(s2, fs[2].0, fs[2].1);
    let s4 = Browser::apply_field(s3, fs[3].0, fs[3].1);
    let s5 = Browser::apply_field(s4, fs[4].0, fs[4].1);
    let s6 = Browser::apply_field(s5, fs[5].0, fs[5].1);
    let s7 = Browser::apply_field(s6, fs[6].0, fs[6].1);
    let s8 = Browser::apply_field(s7, fs[7].0, fs[7].1);
    let s9 = Browser::apply_field(s8, fs[8].0, fs[8].1);
    let s10 = Browser::apply_field(s9, fs[9].0, fs[9].1);
    let s11 = Browser::apply_field(s10, fs[10].0, fs[10].1);
    let s12 = Browser::apply_field(s11, fs[11].0, fs[11].1);
    let s13 = Browser::apply_field(s12, fs[12].0, fs[12].1);
    let s14 = Browser::apply_field(s13, fs[13].0, fs[13].1);
    let s15 = Browser::apply_field(s14, fs[14].0, fs[14].1);
    let s16 = Browser::apply_field(s15, fs[15].0, fs[15].1);
    let s17 = Browser::apply_field(s16, fs[16].0, fs[16].1);
    let s18 = Browser::apply_field(s17, fs[17].0, fs[17].1);
    let s19 = Browser::apply_field(s18, fs[18].0, fs[18].1);
    let s20 = Browser::apply_field(s19, fs[19].0, fs[19].1);
    let s21 = Browser::apply_field(s20, fs[20].0, fs[20].1);
    let s22 = Browser::apply_field(s21, fs[21].0, fs[21].1);
    let s23 = Browser::apply_field(s22, fs[22].0, fs[22].1);
    let s24 = Browser::apply_field(s23, fs[23].0, fs[23].1);
    let s25 = Browser::apply_field(s24, fs[24].0, fs[24].1);
    let s26 = Browser::apply_field(s25, fs[25].0, fs[25].1);
    let s27 = Browser::apply_field(s26, fs[26].0, fs[26].1);
    let s28 = Browser::apply_field(s27, fs[27].0, fs[27].1);
    let s29 = Browser::apply_field(s28, fs[28].0, fs[28].1);
    let s30 = Browser::apply_field(s29, fs[29].0, fs[29].1);
    let s31 = Browser::apply_field(s30, fs[30].0, fs[30].1);
    let s32 = Browser::apply_field(s31, fs[31].0, fs[31].1);
    assert(Browser::fold_fields(s32, fs, 32) == s32);
    assert(Browser::fold_fields(s31, fs, 31) == s32);
    assert(Browser::fold_fields(s30, fs, 30) == s32);
    assert(Browser::fold_fields(s29, fs, 29) == s32);
    assert(Browser::fold_fields(s28, fs, 28) == s32);
    assert(Browser::fold_fields(s27, fs, 27) == s32);
    assert(Browser::fold_fields(s26, fs, 26) == s32);
    assert(Browser::fold_fields(s25, fs, 25) == s32);
    assert(Browser::fold_fields(s24, fs, 24) == s32);
    assert(Browser::fold_fields(s23, fs, 23) == s32);
    assert(Browser::fold_fields(s22, fs, 22) == s32);
    assert(Browser::fold_fields(s21, fs, 21) == s32);
    assert(Browser::fold_fields(s20, fs, 20) == s32);
    assert(Browser::fold_fields(s19, fs, 19) == s32);
    assert(Browser::fold_fields(s18, fs, 18) == s32);
    assert(Browser::fold_fields(s17, fs, 17) == s32);
    assert(Browser::fold_fields(s16, fs, 16) == s32);
    assert(Browser::fold_fields(s15, fs, 15) == s32);
    assert(Browser::fold_fields(s14, fs, 14) == s32);
    assert(Browser::fold_fields(s13, fs, 13) == s32);
    assert(Browser::fold_fields(s12, fs, 12) == s32);
    assert(Browser::fold_fields(s11, fs, 11) == s32);
    assert(Browser::fold_fields(s10, fs, 10) == s32);
    assert(Browser::fold_fields(s9, fs, 9) == s32);
    assert(Browser::fold_fields(s8, fs, 8) == s32);
    assert(Browser::fold_fields(s7, fs, 7) == s32);
    assert(Browser::fold_fields(s6, fs, 6) == s32);
    assert(Browser::fold_fields(s5, fs, 5) == s32);
    assert(Browser::fold_fields(s4, fs, 4) == s32);
    assert(Browser::fold_fields(s3, fs, 3) == s32);
    assert(Browser::fold_fields(s2, fs, 2) == s32);
    assert(Browser::fold_fields(s1, fs, 1) == s32);
    assert(Browser::fold_fields(s0, fs, 0) == s32);
    assert(s32 == m);
}

/// The CDC envelope around one browser record.
#[derive(Debug)]
pub struct BrowserDocument {
    pub document: Option<Browser>,
}

/// The response around one record.
#[derive(Debug)]
pub struct BrowserResponse {
    pub browser: Option<Browser>,
}

impl Default for BrowserResponse {
    fn default() -> (r: Self)
        ensures
            r.browser is None,
    {
        BrowserResponse { browser: Option::None }
    }
}

/// The response around a list of records.
#[derive(Debug)]
pub struct BrowserListResponse {
    pub browsers: Option<Vec<Browser>>,
}

impl Browser {
    /// A lookup probe carrying only the id.
    pub fn from_id(id: Option<String>) -> (r: Browser)
        ensures
            r.model() == (BrowserModel { id: crate::text::view_opt(id), ..Browser::empty_model() }),
    {
        let mut record = Browser::empty();
        record.id = id;
        record
    }
}

impl Browser {
    /// A short description of the record for diagnostics.
    pub fn to_string(&self) -> (r: String)
        ensures
            r@ == "Browser UUID "@ + (match self.uuid {
                Option::Some(u) => u@,
                Option::None => Seq::empty(),
            }) + " Index "@ + (match self.index_value {
                Option::Some(v) => v@,
                Option::None => Seq::empty(),
            }),
    {
        let mut out = "Browser UUID ".to_owned();
        match &self.uuid {
            Option::Some(u) => out.append(u.as_str()),
            Option::None => {
            },
        }
        out.append(" Index ");
        match &self.index_value {
            Option::Some(v) => out.append(v.as_str()),
            Option::None => {
            },
        }
        out
    }
}

impl Default for Browser {
    fn default() -> (r: Browser)
        ensures
            r.model() == Browser::empty_model(),
    {
        Browser::empty()
    }
}

} // verus!
