//! Small shared dictionary records: the target of a menu action, a
//! summarized dictionary object, the reference and dependent-field
//! attributes carried by fields and parameters, and the table behind a tab
//! or browser.

use vstd::prelude::*;
use crate::text::view_opt;
use crate::value::dec_opt_bool;
use crate::value::dec_opt_i32;
use crate::value::dec_opt_text;
use crate::value::dec_opt_texts;
use crate::value::decode_opt_bool;
use crate::value::decode_opt_i32;
use crate::value::decode_opt_text;
use crate::value::decode_opt_texts;
use crate::value::enc_opt_bool;
use crate::value::enc_opt_i32;
use crate::value::enc_opt_text;
use crate::value::enc_opt_texts;
use crate::value::encode_opt_bool;
use crate::value::encode_opt_i32;
use crate::value::encode_opt_text;
use crate::value::encode_opt_texts;
use crate::value::lemma_fields_of;
use crate::value::lemma_models_of;
use crate::value::lemma_opt_texts_round_trip;
use crate::value::view_opt_texts;
use crate::value::Key;
use crate::value::ValModel;
use crate::value::Value;


verus! {

/// A dictionary object referenced from a menu leaf: the targeted window,
/// process, form, browser or workflow.
#[derive(Debug, Clone)]
pub struct MenuAction {
    pub internal_id: Option<i32>,
    pub id: Option<String>,
    pub uuid: Option<String>,
    pub name: Option<String>,
    pub description: Option<String>,
    pub help: Option<String>,
}

/// The mathematical model of a [`MenuAction`].
pub struct MenuActionModel {
    pub internal_id: Option<i32>,
    pub id: Option<Seq<char>>,
    pub uuid: Option<Seq<char>>,
    pub name: Option<Seq<char>>,
    pub description: Option<Seq<char>>,
    pub help: Option<Seq<char>>,
}

impl MenuAction {
    pub open spec fn model(self) -> MenuActionModel {
        MenuActionModel {
            internal_id: self.internal_id,
            id: view_opt(self.id),
            uuid: view_opt(self.uuid),
            name: view_opt(self.name),
            description: view_opt(self.description),
            help: view_opt(self.help),
        }
    }

    pub open spec fn empty_model() -> MenuActionModel {
        MenuActionModel {
            internal_id: Option::None,
            id: Option::None,
            uuid: Option::None,
            name: Option::None,
            description: Option::None,
            help: Option::None,
        }
    }

    /// The stored shape: every field present under its key, absent values
    /// as null.
    pub open spec fn enc(m: MenuActionModel) -> ValModel {
        ValModel::Object(
            seq![
                (Key::InternalId, enc_opt_i32(m.internal_id)),
                (Key::Id, enc_opt_text(m.id)),
                (Key::Uuid, enc_opt_text(m.uuid)),
                (Key::Name, enc_opt_text(m.name)),
                (Key::Description, enc_opt_text(m.description)),
                (Key::Help, enc_opt_text(m.help)),
            ],
        )
    }

    /// One decoding step: a recognized key sets its field; unknown keys are
    /// ignored.
    pub open spec fn apply_field(m: MenuActionModel, k: Key, v: ValModel) -> MenuActionModel {
        match k {
            Key::InternalId => MenuActionModel { internal_id: dec_opt_i32(v), ..m },
            Key::Id => MenuActionModel { id: dec_opt_text(v), ..m },
            Key::Uuid => MenuActionModel { uuid: dec_opt_text(v), ..m },
            Key::Name => MenuActionModel { name: dec_opt_text(v), ..m },
            Key::Description => MenuActionModel { description: dec_opt_text(v), ..m },
            Key::Help => MenuActionModel { help: dec_opt_text(v), ..m },
            _ => m,
        }
    }

    pub open spec fn fold_fields(m: MenuActionModel, fs: Seq<(Key, ValModel)>, i: int) -> MenuActionModel
        decreases fs.len() - i,
    {
        if i < 0 || i >= fs.len() {
            m
        } else {
            MenuAction::fold_fields(MenuAction::apply_field(m, fs[i].0, fs[i].1), fs, i + 1)
        }
    }

    /// Decoding of a stored document into a model; only objects decode.
    pub open spec fn dec(v: ValModel) -> Option<MenuActionModel> {
        match v {
            ValModel::Object(fs) => Option::Some(MenuAction::fold_fields(MenuAction::empty_model(), fs, 0)),
            _ => Option::None,
        }
    }

    pub fn empty() -> (r: MenuAction)
        ensures
            r.model() == MenuAction::empty_model(),
    {
        MenuAction {
            internal_id: Option::None,
            id: Option::None,
            uuid: Option::None,
            name: Option::None,
            description: Option::None,
            help: Option::None,
        }
    }

    /// The stored payload of this record.
    pub fn encode(&self) -> (r: Value)
        ensures
            r.model() == MenuAction::enc(self.model()),
    {
        let mut fs: Vec<(Key, Value)> = Vec::new();
        fs.push((Key::InternalId, encode_opt_i32(&self.internal_id)));
        fs.push((Key::Id, encode_opt_text(&self.id)));
        fs.push((Key::Uuid, encode_opt_text(&self.uuid)));
        fs.push((Key::Name, encode_opt_text(&self.name)));
        fs.push((Key::Description, encode_opt_text(&self.description)));
        fs.push((Key::Help, encode_opt_text(&self.help)));
        proof {
            lemma_fields_of(fs@);
            let target = MenuAction::enc(self.model())->Object_0;
            assert forall|j: int| 0 <= j < fs@.len() implies Value::fields_of(fs@)[j]
                == target[j] by {
                assert(Value::fields_of(fs@)[j] == (fs@[j].0, fs@[j].1.model()));
            }
            assert(Value::fields_of(fs@) =~= target);
        }
        Value::Object(fs)
    }

    /// Decoding of a stored document; inverse of [`MenuAction::encode`] on the
    /// models.
    pub fn decode(v: &Value) -> (r: Option<MenuAction>)
        ensures
            match (r, MenuAction::dec(v.model())) {
                (Option::Some(x), Option::Some(m)) => x.model() == m,
                (Option::None, Option::None) => true,
                _ => false,
            },
    {
        match v {
            Value::Object(fs) => {
                let ghost fsm = Value::fields_of(fs@);
                proof {
                    lemma_fields_of(fs@);
                }
                let mut out = MenuAction::empty();
                let mut i: usize = 0;
                while i < fs.len()
                    invariant
                        0 <= i <= fs@.len(),
                        fsm == Value::fields_of(fs@),
                        fsm.len() == fs@.len(),
                        forall|k: int|
                            0 <= k < fs@.len() ==> fsm[k] == (#[trigger] fs@[k].0, fs@[k].1.model()),
                        MenuAction::fold_fields(MenuAction::empty_model(), fsm, 0)
                            == MenuAction::fold_fields(out.model(), fsm, i as int),
                    decreases fs@.len() - i,
                {
                    let ghost before = out.model();
                    let (k, v) = &fs[i];
                    match k {
                        Key::InternalId => out.internal_id = decode_opt_i32(v),
                        Key::Id => out.id = decode_opt_text(v),
                        Key::Uuid => out.uuid = decode_opt_text(v),
                        Key::Name => out.name = decode_opt_text(v),
                        Key::Description => out.description = decode_opt_text(v),
                        Key::Help => out.help = decode_opt_text(v),
                        _ => {
                        },
                    }
                    proof {
                        assert(out.model() == MenuAction::apply_field(before, fsm[i as int].0, fsm[i as int].1));
                    }
                    i = i + 1;
                }
                Option::Some(out)
            },
            _ => Option::None,
        }
    }
}

/// The model of an optional menu action record.
pub open spec fn view_opt_menu_action(o: Option<MenuAction>) -> Option<MenuActionModel> {
    match o {
        Option::None => Option::None,
        Option::Some(x) => Option::Some(x.model()),
    }
}

pub open spec fn enc_opt_menu_action(o: Option<MenuActionModel>) -> ValModel {
    match o {
        Option::None => ValModel::Null,
        Option::Some(m) => MenuAction::enc(m),
    }
}

pub fn encode_opt_menu_action(o: &Option<MenuAction>) -> (r: Value)
    ensures
        r.model() == enc_opt_menu_action(view_opt_menu_action(*o)),
{
    match o {
        Option::None => Value::Null,
        Option::Some(x) => x.encode(),
    }
}

pub fn decode_opt_menu_action(v: &Value) -> (r: Option<MenuAction>)
    ensures
        view_opt_menu_action(r) == MenuAction::dec(v.model()),
{
    MenuAction::decode(v)
}

/// Decoding inverts encoding for every menu action record.
#[verifier::rlimit(100)]
pub proof fn lemma_menu_action_round_trip(m: MenuActionModel)
    ensures
        MenuAction::dec(MenuAction::enc(m)) == Option::Some(m),
{
    let fs = MenuAction::enc(m)->Object_0;
    let s0 = MenuAction::empty_model();
    let s1 = MenuAction::apply_field(s0, fs[0].0, fs[0].1);
    let s2 = MenuAction::apply_field(s1, fs[1].0, fs[1].1);
    let s3 = MenuAction::apply_field(s2, fs[2].0, fs[2].1);
    let s4 = MenuAction::apply_field(s3, fs[3].0, fs[3].1);
    let s5 = MenuAction::apply_field(s4, fs[4].0, fs[4].1);
    let s6 = MenuAction::apply_field(s5, fs[5].0, fs[5].1);
    assert(MenuAction::fold_fields(s6, fs, 6) == s6);
    assert(MenuAction::fold_fields(s5, fs, 5) == s6);
    assert(MenuAction::fold_fields(s4, fs, 4) == s6);
    assert(MenuAction::fold_fields(s3, fs, 3) == s6);
    assert(MenuAction::fold_fields(s2, fs, 2) == s6);
    assert(MenuAction::fold_fields(s1, fs, 1) == s6);
    assert(MenuAction::fold_fields(s0, fs, 0) == s6);
    assert(s6 == m);
}

/// A summarized dictionary object linked from a process or browser.
#[derive(Debug, Clone)]
pub struct DictionaryEntity {
    pub internal_id: Option<i32>,
    pub id: Option<String>,
    pub uuid: Option<String>,
    pub name: Option<String>,
    pub description: Option<String>,
    pub help: Option<String>,
}

/// The mathematical model of a [`DictionaryEntity`].
pub struct DictionaryEntityModel {
    pub internal_id: Option<i32>,
    pub id: Option<Seq<char>>,
    pub uuid: Option<Seq<char>>,
    pub name: Option<Seq<char>>,
    pub description: Option<Seq<char>>,
    pub help: Option<Seq<char>>,
}

impl DictionaryEntity {
    pub open spec fn model(self) -> DictionaryEntityModel {
        DictionaryEntityModel {
            internal_id: self.internal_id,
            id: view_opt(self.id),
            uuid: view_opt(self.uuid),
            name: view_opt(self.name),
            description: view_opt(self.description),
            help: view_opt(self.help),
        }
    }

    pub open spec fn empty_model() -> DictionaryEntityModel {
        DictionaryEntityModel {
            internal_id: Option::None,
            id: Option::None,
            uuid: Option::None,
            name: Option::None,
            description: Option::None,
            help: Option::None,
        }
    }

    /// The stored shape: every field present under its key, absent values
    /// as null.
    pub open spec fn enc(m: DictionaryEntityModel) -> ValModel {
        ValModel::Object(
            seq![
                (Key::InternalId, enc_opt_i32(m.internal_id)),
                (Key::Id, enc_opt_text(m.id)),
                (Key::Uuid, enc_opt_text(m.uuid)),
                (Key::Name, enc_opt_text(m.name)),
                (Key::Description, enc_opt_text(m.description)),
                (Key::Help, enc_opt_text(m.help)),
            ],
        )
    }

    /// One decoding step: a recognized key sets its field; unknown keys are
    /// ignored.
    pub open spec fn apply_field(m: DictionaryEntityModel, k: Key, v: ValModel) -> DictionaryEntityModel {
        match k {
            Key::InternalId => DictionaryEntityModel { internal_id: dec_opt_i32(v), ..m },
            Key::Id => DictionaryEntityModel { id: dec_opt_text(v), ..m },
            Key::Uuid => DictionaryEntityModel { uuid: dec_opt_text(v), ..m },
            Key::Name => DictionaryEntityModel { name: dec_opt_text(v), ..m },
            Key::Description => DictionaryEntityModel { description: dec_opt_text(v), ..m },
            Key::Help => DictionaryEntityModel { help: dec_opt_text(v), ..m },
            _ => m,
        }
    }

    pub open spec fn fold_fields(m: DictionaryEntityModel, fs: Seq<(Key, ValModel)>, i: int) -> DictionaryEntityModel
        decreases fs.len() - i,
    {
        if i < 0 || i >= fs.len() {
            m
        } else {
            DictionaryEntity::fold_fields(DictionaryEntity::apply_field(m, fs[i].0, fs[i].1), fs, i + 1)
        }
    }

    /// Decoding of a stored document into a model; only objects decode.
    pub open spec fn dec(v: ValModel) -> Option<DictionaryEntityModel> {
        match v {
            ValModel::Object(fs) => Option::Some(DictionaryEntity::fold_fields(DictionaryEntity::empty_model(), fs, 0)),
            _ => Option::None,
        }
    }

    pub fn empty() -> (r: DictionaryEntity)
        ensures
            r.model() == DictionaryEntity::empty_model(),
    {
        DictionaryEntity {
            internal_id: Option::None,
            id: Option::None,
            uuid: Option::None,
            name: Option::None,
            description: Option::None,
            help: Option::None,
        }
    }

    /// The stored payload of this record.
    pub fn encode(&self) -> (r: Value)
        ensures
            r.model() == DictionaryEntity::enc(self.model()),
    {
        let mut fs: Vec<(Key, Value)> = Vec::new();
        fs.push((Key::InternalId, encode_opt_i32(&self.internal_id)));
        fs.push((Key::Id, encode_opt_text(&self.id)));
        fs.push((Key::Uuid, encode_opt_text(&self.uuid)));
        fs.push((Key::Name, encode_opt_text(&self.name)));
        fs.push((Key::Description, encode_opt_text(&self.description)));
        fs.push((Key::Help, encode_opt_text(&self.help)));
        proof {
            lemma_fields_of(fs@);
            let target = DictionaryEntity::enc(self.model())->Object_0;
            assert forall|j: int| 0 <= j < fs@.len() implies Value::fields_of(fs@)[j]
                == target[j] by {
                assert(Value::fields_of(fs@)[j] == (fs@[j].0, fs@[j].1.model()));
            }
            assert(Value::fields_of(fs@) =~= target);
        }
        Value::Object(fs)
    }

    /// Decoding of a stored document; inverse of [`DictionaryEntity::encode`] on the
    /// models.
    pub fn decode(v: &Value) -> (r: Option<DictionaryEntity>)
        ensures
            match (r, DictionaryEntity::dec(v.model())) {
                (Option::Some(x), Option::Some(m)) => x.model() == m,
                (Option::None, Option::None) => true,
                _ => false,
            },
    {
        match v {
            Value::Object(fs) => {
                let ghost fsm = Value::fields_of(fs@);
                proof {
                    lemma_fields_of(fs@);
                }
                let mut out = DictionaryEntity::empty();
                let mut i: usize = 0;
                while i < fs.len()
                    invariant
                        0 <= i <= fs@.len(),
                        fsm == Value::fields_of(fs@),
                        fsm.len() == fs@.len(),
                        forall|k: int|
                            0 <= k < fs@.len() ==> fsm[k] == (#[trigger] fs@[k].0, fs@[k].1.model()),
                        DictionaryEntity::fold_fields(DictionaryEntity::empty_model(), fsm, 0)
                            == DictionaryEntity::fold_fields(out.model(), fsm, i as int),
                    decreases fs@.len() - i,
                {
                    let ghost before = out.model();
                    let (k, v) = &fs[i];
                    match k {
                        Key::InternalId => out.internal_id = decode_opt_i32(v),
                        Key::Id => out.id = decode_opt_text(v),
                        Key::Uuid => out.uuid = decode_opt_text(v),
                        Key::Name => out.name = decode_opt_text(v),
                        Key::Description => out.description = decode_opt_text(v),
                        Key::Help => out.help = decode_opt_text(v),
                        _ => {
                        },
                    }
                    proof {
                        assert(out.model() == DictionaryEntity::apply_field(before, fsm[i as int].0, fsm[i as int].1));
                    }
                    i = i + 1;
                }
                Option::Some(out)
            },
            _ => Option::None,
        }
    }
}

/// The model of an optional dictionary entity record.
pub open spec fn view_opt_dictionary_entity(o: Option<DictionaryEntity>) -> Option<DictionaryEntityModel> {
    match o {
        Option::None => Option::None,
        Option::Some(x) => Option::Some(x.model()),
    }
}

pub open spec fn enc_opt_dictionary_entity(o: Option<DictionaryEntityModel>) -> ValModel {
    match o {
        Option::None => ValModel::Null,
        Option::Some(m) => DictionaryEntity::enc(m),
    }
}

pub fn encode_opt_dictionary_entity(o: &Option<DictionaryEntity>) -> (r: Value)
    ensures
        r.model() == enc_opt_dictionary_entity(view_opt_dictionary_entity(*o)),
{
    match o {
        Option::None => Value::Null,
        Option::Some(x) => x.encode(),
    }
}

pub fn decode_opt_dictionary_entity(v: &Value) -> (r: Option<DictionaryEntity>)
    ensures
        view_opt_dictionary_entity(r) == DictionaryEntity::dec(v.model()),
{
    DictionaryEntity::decode(v)
}

/// Decoding inverts encoding for every dictionary entity record.
#[verifier::rlimit(100)]
pub proof fn lemma_dictionary_entity_round_trip(m: DictionaryEntityModel)
    ensures
        DictionaryEntity::dec(DictionaryEntity::enc(m)) == Option::Some(m),
{
    let fs = DictionaryEntity::enc(m)->Object_0;
    let s0 = DictionaryEntity::empty_model();
    let s1 = DictionaryEntity::apply_field(s0, fs[0].0, fs[0].1);
    let s2 = DictionaryEntity::apply_field(s1, fs[1].0, fs[1].1);
    let s3 = DictionaryEntity::apply_field(s2, fs[2].0, fs[2].1);
    let s4 = DictionaryEntity::apply_field(s3, fs[3].0, fs[3].1);
    let s5 = DictionaryEntity::apply_field(s4, fs[4].0, fs[4].1);
    let s6 = DictionaryEntity::apply_field(s5, fs[5].0, fs[5].1);
    assert(DictionaryEntity::fold_fields(s6, fs, 6) == s6);
    assert(DictionaryEntity::fold_fields(s5, fs, 5) == s6);
    assert(DictionaryEntity::fold_fields(s4, fs, 4) == s6);
    assert(DictionaryEntity::fold_fields(s3, fs, 3) == s6);
    assert(DictionaryEntity::fold_fields(s2, fs, 2) == s6);
    assert(DictionaryEntity::fold_fields(s1, fs, 1) == s6);
    assert(DictionaryEntity::fold_fields(s0, fs, 0) == s6);
    assert(s6 == m);
}

/// The value-reference attributes of a field or parameter.
#[derive(Debug, Clone)]
pub struct Reference {
    pub table_name: Option<String>,
    pub reference_id: Option<i32>,
    pub reference_value_id: Option<i32>,
    pub context_column_names: Option<Vec<String>>,
}

/// The mathematical model of a [`Reference`].
pub struct ReferenceModel {
    pub table_name: Option<Seq<char>>,
    pub reference_id: Option<i32>,
    pub reference_value_id: Option<i32>,
    pub context_column_names: Option<Seq<Seq<char>>>,
}

impl Reference {
    pub open spec fn model(self) -> ReferenceModel {
        ReferenceModel {
            table_name: view_opt(self.table_name),
            reference_id: self.reference_id,
            reference_value_id: self.reference_value_id,
            context_column_names: view_opt_texts(self.context_column_names),
        }
    }

    pub open spec fn empty_model() -> ReferenceModel {
        ReferenceModel {
            table_name: Option::None,
            reference_id: Option::None,
            reference_value_id: Option::None,
            context_column_names: Option::None,
        }
    }

    /// The stored shape: every field present under its key, absent values
    /// as null.
    pub open spec fn enc(m: ReferenceModel) -> ValModel {
        ValModel::Object(
            seq![
                (Key::TableName, enc_opt_text(m.table_name)),
                (Key::ReferenceId, enc_opt_i32(m.reference_id)),
                (Key::ReferenceValueId, enc_opt_i32(m.reference_value_id)),
                (Key::ContextColumnNames, enc_opt_texts(m.context_column_names)),
            ],
        )
    }

    /// One decoding step: a recognized key sets its field; unknown keys are
    /// ignored.
    pub open spec fn apply_field(m: ReferenceModel, k: Key, v: ValModel) -> ReferenceModel {
        match k {
            Key::TableName => ReferenceModel { table_name: dec_opt_text(v), ..m },
            Key::ReferenceId => ReferenceModel { reference_id: dec_opt_i32(v), ..m },
            Key::ReferenceValueId => ReferenceModel { reference_value_id: dec_opt_i32(v), ..m },
            Key::ContextColumnNames => ReferenceModel { context_column_names: dec_opt_texts(v), ..m },
            _ => m,
        }
    }

    pub open spec fn fold_fields(m: ReferenceModel, fs: Seq<(Key, ValModel)>, i: int) -> ReferenceModel
        decreases fs.len() - i,
    {
        if i < 0 || i >= fs.len() {
            m
        } else {
            Reference::fold_fields(Reference::apply_field(m, fs[i].0, fs[i].1), fs, i + 1)
        }
    }

    /// Decoding of a stored document into a model; only objects decode.
    pub open spec fn dec(v: ValModel) -> Option<ReferenceModel> {
        match v {
            ValModel::Object(fs) => Option::Some(Reference::fold_fields(Reference::empty_model(), fs, 0)),
            _ => Option::None,
        }
    }

    pub fn empty() -> (r: Reference)
        ensures
            r.model() == Reference::empty_model(),
    {
        Reference {
            table_name: Option::None,
            reference_id: Option::None,
            reference_value_id: Option::None,
            context_column_names: Option::None,
        }
    }

    /// The stored payload of this record.
    pub fn encode(&self) -> (r: Value)
        ensures
            r.model() == Reference::enc(self.model()),
    {
        let mut fs: Vec<(Key, Value)> = Vec::new();
        fs.push((Key::TableName, encode_opt_text(&self.table_name)));
        fs.push((Key::ReferenceId, encode_opt_i32(&self.reference_id)));
        fs.push((Key::ReferenceValueId, encode_opt_i32(&self.reference_value_id)));
        fs.push((Key::ContextColumnNames, encode_opt_texts(&self.context_column_names)));
        proof {
            lemma_fields_of(fs@);
            let target = Reference::enc(self.model())->Object_0;
            assert forall|j: int| 0 <= j < fs@.len() implies Value::fields_of(fs@)[j]
                == target[j] by {
                assert(Value::fields_of(fs@)[j] == (fs@[j].0, fs@[j].1.model()));
            }
            assert(Value::fields_of(fs@) =~= target);
        }
        Value::Object(fs)
    }

    /// Decoding of a stored document; inverse of [`Reference::encode`] on the
    /// models.
    pub fn decode(v: &Value) -> (r: Option<Reference>)
        ensures
            match (r, Reference::dec(v.model())) {
                (Option::Some(x), Option::Some(m)) => x.model() == m,
                (Option::None, Option::None) => true,
                _ => false,
            },
    {
        match v {
            Value::Object(fs) => {
                let ghost fsm = Value::fields_of(fs@);
                proof {
                    lemma_fields_of(fs@);
                }
                let mut out = Reference::empty();
                let mut i: usize = 0;
                while i < fs.len()
                    invariant
                        0 <= i <= fs@.len(),
                        fsm == Value::fields_of(fs@),
                        fsm.len() == fs@.len(),
                        forall|k: int|
                            0 <= k < fs@.len() ==> fsm[k] == (#[trigger] fs@[k].0, fs@[k].1.model()),
                        Reference::fold_fields(Reference::empty_model(), fsm, 0)
                            == Reference::fold_fields(out.model(), fsm, i as int),
                    decreases fs@.len() - i,
                {
                    let ghost before = out.model();
                    let (k, v) = &fs[i];
                    match k {
                        Key::TableName => out.table_name = decode_opt_text(v),
                        Key::ReferenceId => out.reference_id = decode_opt_i32(v),
                        Key::ReferenceValueId => out.reference_value_id = decode_opt_i32(v),
                        Key::ContextColumnNames => out.context_column_names = decode_opt_texts(v),
                        _ => {
                        },
                    }
                    proof {
                        assert(out.model() == Reference::apply_field(before, fsm[i as int].0, fsm[i as int].1));
                    }
                    i = i + 1;
                }
                Option::Some(out)
            },
            _ => Option::None,
        }
    }
}

/// The model of an optional reference record.
pub open spec fn view_opt_reference(o: Option<Reference>) -> Option<ReferenceModel> {
    match o {
        Option::None => Option::None,
        Option::Some(x) => Option::Some(x.model()),
    }
}

pub open spec fn enc_opt_reference(o: Option<ReferenceModel>) -> ValModel {
    match o {
        Option::None => ValModel::Null,
        Option::Some(m) => Reference::enc(m),
    }
}

pub fn encode_opt_reference(o: &Option<Reference>) -> (r: Value)
    ensures
        r.model() == enc_opt_reference(view_opt_reference(*o)),
{
    match o {
        Option::None => Value::Null,
        Option::Some(x) => x.encode(),
    }
}

pub fn decode_opt_reference(v: &Value) -> (r: Option<Reference>)
    ensures
        view_opt_reference(r) == Reference::dec(v.model()),
{
    Reference::decode(v)
}

/// Decoding inverts encoding for every reference record.
#[verifier::rlimit(100)]
pub proof fn lemma_reference_round_trip(m: ReferenceModel)
    ensures
        Reference::dec(Reference::enc(m)) == Option::Some(m),
{
    lemma_opt_texts_round_trip(m.context_column_names);
    let fs = Reference::enc(m)->Object_0;
    let s0 = Reference::empty_model();
    let s1 = Reference::apply_field(s0, fs[0].0, fs[0].1);
    let s2 = Reference::apply_field(s1, fs[1].0, fs[1].1);
    let s3 = Reference::apply_field(s2, fs[2].0, fs[2].1);
    let s4 = Reference::apply_field(s3, fs[3].0, fs[3].1);
    assert(Reference::fold_fields(s4, fs, 4) == s4);
    assert(Reference::fold_fields(s3, fs, 3) == s4);
    assert(Reference::fold_fields(s2, fs, 2) == s4);
    assert(Reference::fold_fields(s1, fs, 1) == s4);
    assert(Reference::fold_fields(s0, fs, 0) == s4);
    assert(s4 == m);
}

/// A field whose value depends on another field of the same container.
#[derive(Debug, Clone)]
pub struct DependendField {
    pub uuid: Option<String>,
    pub internal_id: Option<i32>,
    pub id: Option<String>,
    pub column_name: Option<String>,
    pub parent_id: Option<i32>,
    pub parent_uuid: Option<String>,
    pub parent_name: Option<String>,
}

/// The mathematical model of a [`DependendField`].
pub struct DependendFieldModel {
    pub uuid: Option<Seq<char>>,
    pub internal_id: Option<i32>,
    pub id: Option<Seq<char>>,
    pub column_name: Option<Seq<char>>,
    pub parent_id: Option<i32>,
    pub parent_uuid: Option<Seq<char>>,
    pub parent_name: Option<Seq<char>>,
}

impl DependendField {
    pub open spec fn model(self) -> DependendFieldModel {
        DependendFieldModel {
            uuid: view_opt(self.uuid),
            internal_id: self.internal_id,
            id: view_opt(self.id),
            column_name: view_opt(self.column_name),
            parent_id: self.parent_id,
            parent_uuid: view_opt(self.parent_uuid),
            parent_name: view_opt(self.parent_name),
        }
    }

    pub open spec fn empty_model() -> DependendFieldModel {
        DependendFieldModel {
            uuid: Option::None,
            internal_id: Option::None,
            id: Option::None,
            column_name: Option::None,
            parent_id: Option::None,
            parent_uuid: Option::None,
            parent_name: Option::None,
        }
    }

    /// The stored shape: every field present under its key, absent values
    /// as null.
    pub open spec fn enc(m: DependendFieldModel) -> ValModel {
        ValModel::Object(
            seq![
                (Key::Uuid, enc_opt_text(m.uuid)),
                (Key::InternalId, enc_opt_i32(m.internal_id)),
                (Key::Id, enc_opt_text(m.id)),
                (Key::ColumnName, enc_opt_text(m.column_name)),
                (Key::ParentId, enc_opt_i32(m.parent_id)),
                (Key::ParentUuid, enc_opt_text(m.parent_uuid)),
                (Key::ParentName, enc_opt_text(m.parent_name)),
            ],
        )
    }

    /// One decoding step: a recognized key sets its field; unknown keys are
    /// ignored.
    pub open spec fn apply_field(m: DependendFieldModel, k: Key, v: ValModel) -> DependendFieldModel {
        match k {
            Key::Uuid => DependendFieldModel { uuid: dec_opt_text(v), ..m },
            Key::InternalId => DependendFieldModel { internal_id: dec_opt_i32(v), ..m },
            Key::Id => DependendFieldModel { id: dec_opt_text(v), ..m },
            Key::ColumnName => DependendFieldModel { column_name: dec_opt_text(v), ..m },
            Key::ParentId => DependendFieldModel { parent_id: dec_opt_i32(v), ..m },
            Key::ParentUuid => DependendFieldModel { parent_uuid: dec_opt_text(v), ..m },
            Key::ParentName => DependendFieldModel { parent_name: dec_opt_text(v), ..m },
            _ => m,
        }
    }

    pub open spec fn fold_fields(m: DependendFieldModel, fs: Seq<(Key, ValModel)>, i: int) -> DependendFieldModel
        decreases fs.len() - i,
    {
        if i < 0 || i >= fs.len() {
            m
        } else {
            DependendField::fold_fields(DependendField::apply_field(m, fs[i].0, fs[i].1), fs, i + 1)
        }
    }

    /// Decoding of a stored document into a model; only objects decode.
    pub open spec fn dec(v: ValModel) -> Option<DependendFieldModel> {
        match v {
            ValModel::Object(fs) => Option::Some(DependendField::fold_fields(DependendField::empty_model(), fs, 0)),
            _ => Option::None,
        }
    }

    pub fn empty() -> (r: DependendField)
        ensures
            r.model() == DependendField::empty_model(),
    {
        DependendField {
            uuid: Option::None,
            internal_id: Option::None,
            id: Option::None,
            column_name: Option::None,
            parent_id: Option::None,
            parent_uuid: Option::None,
            parent_name: Option::None,
        }
    }

    /// The stored payload of this record.
    pub fn encode(&self) -> (r: Value)
        ensures
            r.model() == DependendField::enc(self.model()),
    {
        let mut fs: Vec<(Key, Value)> = Vec::new();
        fs.push((Key::Uuid, encode_opt_text(&self.uuid)));
        fs.push((Key::InternalId, encode_opt_i32(&self.internal_id)));
        fs.push((Key::Id, encode_opt_text(&self.id)));
        fs.push((Key::ColumnName, encode_opt_text(&self.column_name)));
        fs.push((Key::ParentId, encode_opt_i32(&self.parent_id)));
        fs.push((Key::ParentUuid, encode_opt_text(&self.parent_uuid)));
        fs.push((Key::ParentName, encode_opt_text(&self.parent_name)));
        proof {
            lemma_fields_of(fs@);
            let target = DependendField::enc(self.model())->Object_0;
            assert forall|j: int| 0 <= j < fs@.len() implies Value::fields_of(fs@)[j]
                == target[j] by {
                assert(Value::fields_of(fs@)[j] == (fs@[j].0, fs@[j].1.model()));
            }
            assert(Value::fields_of(fs@) =~= target);
        }
        Value::Object(fs)
    }

    /// Decoding of a stored document; inverse of [`DependendField::encode`] on the
    /// models.
    pub fn decode(v: &Value) -> (r: Option<DependendField>)
        ensures
            match (r, DependendField::dec(v.model())) {
                (Option::Some(x), Option::Some(m)) => x.model() == m,
                (Option::None, Option::None) => true,
                _ => false,
            },
    {
        match v {
            Value::Object(fs) => {
                let ghost fsm = Value::fields_of(fs@);
                proof {
                    lemma_fields_of(fs@);
                }
                let mut out = DependendField::empty();
                let mut i: usize = 0;
                while i < fs.len()
                    invariant
                        0 <= i <= fs@.len(),
                        fsm == Value::fields_of(fs@),
                        fsm.len() == fs@.len(),
                        forall|k: int|
                            0 <= k < fs@.len() ==> fsm[k] == (#[trigger] fs@[k].0, fs@[k].1.model()),
                        DependendField::fold_fields(DependendField::empty_model(), fsm, 0)
                            == DependendField::fold_fields(out.model(), fsm, i as int),
                    decreases fs@.len() - i,
                {
                    let ghost before = out.model();
                    let (k, v) = &fs[i];
                    match k {
                        Key::Uuid => out.uuid = decode_opt_text(v),
                        Key::InternalId => out.internal_id = decode_opt_i32(v),
                        Key::Id => out.id = decode_opt_text(v),
                        Key::ColumnName => out.column_name = decode_opt_text(v),
                        Key::ParentId => out.parent_id = decode_opt_i32(v),
                        Key::ParentUuid => out.parent_uuid = decode_opt_text(v),
                        Key::ParentName => out.parent_name = decode_opt_text(v),
                        _ => {
                        },
                    }
                    proof {
                        assert(out.model() == DependendField::apply_field(before, fsm[i as int].0, fsm[i as int].1));
                    }
                    i = i + 1;
                }
                Option::Some(out)
            },
            _ => Option::None,
        }
    }
}

/// The model of an optional dependend field record.
pub open spec fn view_opt_dependend_field(o: Option<DependendField>) -> Option<DependendFieldModel> {
    match o {
        Option::None => Option::None,
        Option::Some(x) => Option::Some(x.model()),
    }
}

pub open spec fn enc_opt_dependend_field(o: Option<DependendFieldModel>) -> ValModel {
    match o {
        Option::None => ValModel::Null,
        Option::Some(m) => DependendField::enc(m),
    }
}

pub fn encode_opt_dependend_field(o: &Option<DependendField>) -> (r: Value)
    ensures
        r.model() == enc_opt_dependend_field(view_opt_dependend_field(*o)),
{
    match o {
        Option::None => Value::Null,
        Option::Some(x) => x.encode(),
    }
}

pub fn decode_opt_dependend_field(v: &Value) -> (r: Option<DependendField>)
    ensures
        view_opt_dependend_field(r) == DependendField::dec(v.model()),
{
    DependendField::decode(v)
}

/// Decoding inverts encoding for every dependend field record.
#[verifier::rlimit(100)]
pub proof fn lemma_dependend_field_round_trip(m: DependendFieldModel)
    ensures
        DependendField::dec(DependendField::enc(m)) == Option::Some(m),
{
    let fs = DependendField::enc(m)->Object_0;
    let s0 = DependendField::empty_model();
    let s1 = DependendField::apply_field(s0, fs[0].0, fs[0].1);
    let s2 = DependendField::apply_field(s1, fs[1].0, fs[1].1);
    let s3 = DependendField::apply_field(s2, fs[2].0, fs[2].1);
    let s4 = DependendField::apply_field(s3, fs[3].0, fs[3].1);
    let s5 = DependendField::apply_field(s4, fs[4].0, fs[4].1);
    let s6 = DependendField::apply_field(s5, fs[5].0, fs[5].1);
    let s7 = DependendField::apply_field(s6, fs[6].0, fs[6].1);
    assert(DependendField::fold_fields(s7, fs, 7) == s7);
    assert(DependendField::fold_fields(s6, fs, 6) == s7);
    assert(DependendField::fold_fields(s5, fs, 5) == s7);
    assert(DependendField::fold_fields(s4, fs, 4) == s7);
    assert(DependendField::fold_fields(s3, fs, 3) == s7);
    assert(DependendField::fold_fields(s2, fs, 2) == s7);
    assert(DependendField::fold_fields(s1, fs, 1) == s7);
    assert(DependendField::fold_fields(s0, fs, 0) == s7);
    assert(s7 == m);
}

/// Encoding of a sequence of dependend field records.
pub open spec fn enc_dependend_fields(s: Seq<DependendFieldModel>) -> Seq<ValModel>
    decreases s,
{
    if s.len() == 0 {
        Seq::empty()
    } else {
        seq![DependendField::enc(s[0])] + enc_dependend_fields(s.drop_first())
    }
}

/// Decoding of a list of dependend field records; elements that do not
/// decode are ignored.
pub open spec fn dec_dependend_fields(items: Seq<ValModel>) -> Seq<DependendFieldModel>
    decreases items,
{
    if items.len() == 0 {
        Seq::empty()
    } else {
        match DependendField::dec(items[0]) {
            Option::Some(m) => seq![m] + dec_dependend_fields(items.drop_first()),
            Option::None => dec_dependend_fields(items.drop_first()),
        }
    }
}

pub open spec fn enc_opt_dependend_fields(o: Option<Seq<DependendFieldModel>>) -> ValModel {
    match o {
        Option::None => ValModel::Null,
        Option::Some(s) => ValModel::List(enc_dependend_fields(s)),
    }
}

pub open spec fn dec_opt_dependend_fields(v: ValModel) -> Option<Seq<DependendFieldModel>> {
    match v {
        ValModel::List(items) => Option::Some(dec_dependend_fields(items)),
        _ => Option::None,
    }
}

/// The model of an optional vector of dependend field records.
pub open spec fn view_opt_dependend_fields(o: Option<Vec<DependendField>>) -> Option<Seq<DependendFieldModel>> {
    match o {
        Option::None => Option::None,
        Option::Some(v) => Option::Some(Seq::new(v@.len(), |i: int| v@[i].model())),
    }
}

/// `enc_dependend_fields` indexes point-wise.
pub proof fn lemma_enc_dependend_fields_index(s: Seq<DependendFieldModel>)
    ensures
        enc_dependend_fields(s).len() == s.len(),
        forall|i: int| 0 <= i < s.len() ==> enc_dependend_fields(s)[i] == DependendField::enc(#[trigger] s[i]),
    decreases s,
{
    if s.len() > 0 {
        lemma_enc_dependend_fields_index(s.drop_first());
        assert forall|i: int| 0 <= i < s.len() implies enc_dependend_fields(s)[i] == DependendField::enc(
            #[trigger] s[i],
        ) by {
            if i > 0 {
                assert(s.drop_first()[i - 1] == s[i]);
                assert(enc_dependend_fields(s)[i] == enc_dependend_fields(s.drop_first())[i - 1]);
            }
        }
    }
}

/// List decode inverts list encode, element by element.
pub proof fn lemma_dependend_fields_round_trip(s: Seq<DependendFieldModel>)
    ensures
        dec_dependend_fields(enc_dependend_fields(s)) == s,
    decreases s,
{
    if s.len() == 0 {
        assert(dec_dependend_fields(enc_dependend_fields(s)) =~= s);
    } else {
        lemma_dependend_field_round_trip(s[0]);
        lemma_dependend_fields_round_trip(s.drop_first());
        assert(enc_dependend_fields(s).drop_first() =~= enc_dependend_fields(s.drop_first()));
        assert(seq![s[0]] + s.drop_first() =~= s);
    }
}

pub fn encode_opt_dependend_fields(o: &Option<Vec<DependendField>>) -> (r: Value)
    ensures
        r.model() == enc_opt_dependend_fields(view_opt_dependend_fields(*o)),
{
    match o {
        Option::None => Value::Null,
        Option::Some(v) => {
            let mut out: Vec<Value> = Vec::new();
            let mut i: usize = 0;
            while i < v.len()
                invariant
                    0 <= i <= v@.len(),
                    out@.len() == i,
                    forall|j: int| 0 <= j < i ==> #[trigger] out@[j].model() == DependendField::enc(v@[j].model()),
                decreases v@.len() - i,
            {
                out.push(v[i].encode());
                i = i + 1;
            }
            proof {
                let vs = view_opt_dependend_fields(*o)->Some_0;
                lemma_models_of(out@);
                lemma_enc_dependend_fields_index(vs);
                assert forall|j: int| 0 <= j < out@.len() implies Value::models_of(out@)[j]
                    == enc_dependend_fields(vs)[j] by {
                    assert(out@[j].model() == DependendField::enc(v@[j].model()));
                    assert(vs[j] == v@[j].model());
                }
                assert(Value::models_of(out@) =~= enc_dependend_fields(vs));
            }
            Value::List(out)
        },
    }
}

pub fn decode_opt_dependend_fields(v: &Value) -> (r: Option<Vec<DependendField>>)
    ensures
        view_opt_dependend_fields(r) == dec_opt_dependend_fields(v.model()),
{
    match v {
        Value::List(items) => {
            let mut out: Vec<DependendField> = Vec::new();
            let mut i: usize = 0;
            let ghost ms = Value::models_of(items@);
            proof {
                lemma_models_of(items@);
                assert(ms.subrange(0, ms.len() as int) =~= ms);
                assert(Seq::new(0, |j: int| out@[j].model()) + dec_dependend_fields(ms) =~= dec_dependend_fields(ms));
            }
            while i < items.len()
                invariant
                    0 <= i <= items@.len(),
                    ms == Value::models_of(items@),
                    ms.len() == items@.len(),
                    forall|k: int| 0 <= k < items@.len() ==> ms[k] == #[trigger] items@[k].model(),
                    dec_dependend_fields(ms) == Seq::new(out@.len(), |j: int| out@[j].model()) + dec_dependend_fields(
                        ms.subrange(i as int, ms.len() as int),
                    ),
                decreases items@.len() - i,
            {
                let ghost prev = Seq::new(out@.len(), |j: int| out@[j].model());
                let ghost rest = ms.subrange(i as int, ms.len() as int);
                proof {
                    assert(rest[0] == ms[i as int]);
                    assert(rest.drop_first() =~= ms.subrange(i + 1, ms.len() as int));
                    assert(ms[i as int] == items@[i as int].model());
                }
                match DependendField::decode(&items[i]) {
                    Option::Some(x) => {
                        out.push(x);
                        proof {
                            assert(Seq::new(out@.len(), |j: int| out@[j].model()) =~= prev
                                + seq![out@[out@.len() - 1].model()]);
                            assert(prev + seq![out@[out@.len() - 1].model()] + dec_dependend_fields(
                                ms.subrange(i + 1, ms.len() as int),
                            ) =~= prev + (seq![out@[out@.len() - 1].model()] + dec_dependend_fields(
                                ms.subrange(i + 1, ms.len() as int),
                            )));
                        }
                    },
                    Option::None => {
                    },
                }
                i = i + 1;
            }
            proof {
                assert(ms.subrange(ms.len() as int, ms.len() as int) =~= Seq::<ValModel>::empty());
                assert(dec_dependend_fields(ms) =~= Seq::new(out@.len(), |j: int| out@[j].model()));
            }
            Option::Some(out)
        },
        _ => Option::None,
    }
}


/// The table behind a tab or a browser.
#[derive(Debug, Clone)]
pub struct Table {
    pub uuid: Option<String>,
    pub internal_id: Option<i32>,
    pub id: Option<String>,
    pub table_name: Option<String>,
    pub access_level: Option<String>,
    pub key_columns: Option<Vec<String>>,
    pub is_view: Option<bool>,
    pub is_document: Option<bool>,
    pub is_deleteable: Option<bool>,
    pub is_change_log: Option<bool>,
    pub identifier_columns: Option<Vec<String>>,
    pub selection_colums: Option<Vec<String>>,
}

/// The mathematical model of a [`Table`].
pub struct TableModel {
    pub uuid: Option<Seq<char>>,
    pub internal_id: Option<i32>,
    pub id: Option<Seq<char>>,
    pub table_name: Option<Seq<char>>,
    pub access_level: Option<Seq<char>>,
    pub key_columns: Option<Seq<Seq<char>>>,
    pub is_view: Option<bool>,
    pub is_document: Option<bool>,
    pub is_deleteable: Option<bool>,
    pub is_change_log: Option<bool>,
    pub identifier_columns: Option<Seq<Seq<char>>>,
    pub selection_colums: Option<Seq<Seq<char>>>,
}

impl Table {
    pub open spec fn model(self) -> TableModel {
        TableModel {
            uuid: view_opt(self.uuid),
            internal_id: self.internal_id,
            id: view_opt(self.id),
            table_name: view_opt(self.table_name),
            access_level: view_opt(self.access_level),
            key_columns: view_opt_texts(self.key_columns),
            is_view: self.is_view,
            is_document: self.is_document,
            is_deleteable: self.is_deleteable,
            is_change_log: self.is_change_log,
            identifier_columns: view_opt_texts(self.identifier_columns),
            selection_colums: view_opt_texts(self.selection_colums),
        }
    }

    pub open spec fn empty_model() -> TableModel {
        TableModel {
            uuid: Option::None,
            internal_id: Option::None,
            id: Option::None,
            table_name: Option::None,
            access_level: Option::None,
            key_columns: Option::None,
            is_view: Option::None,
            is_document: Option::None,
            is_deleteable: Option::None,
            is_change_log: Option::None,
            identifier_columns: Option::None,
            selection_colums: Option::None,
        }
    }

    /// The stored shape: every field present under its key, absent values
    /// as null.
    pub open spec fn enc(m: TableModel) -> ValModel {
        ValModel::Object(
            seq![
                (Key::Uuid, enc_opt_text(m.uuid)),
                (Key::InternalId, enc_opt_i32(m.internal_id)),
                (Key::Id, enc_opt_text(m.id)),
                (Key::TableName, enc_opt_text(m.table_name)),
                (Key::AccessLevel, enc_opt_text(m.access_level)),
                (Key::KeyColumns, enc_opt_texts(m.key_columns)),
                (Key::IsView, enc_opt_bool(m.is_view)),
                (Key::IsDocument, enc_opt_bool(m.is_document)),
                (Key::IsDeleteable, enc_opt_bool(m.is_deleteable)),
                (Key::IsChangeLog, enc_opt_bool(m.is_change_log)),
                (Key::IdentifierColumns, enc_opt_texts(m.identifier_columns)),
                (Key::SelectionColums, enc_opt_texts(m.selection_colums)),
            ],
        )
    }

    /// One decoding step: a recognized key sets its field; unknown keys are
    /// ignored.
    pub open spec fn apply_field(m: TableModel, k: Key, v: ValModel) -> TableModel {
        match k {
            Key::Uuid => TableModel { uuid: dec_opt_text(v), ..m },
            Key::InternalId => TableModel { internal_id: dec_opt_i32(v), ..m },
            Key::Id => TableModel { id: dec_opt_text(v), ..m },
            Key::TableName => TableModel { table_name: dec_opt_text(v), ..m },
            Key::AccessLevel => TableModel { access_level: dec_opt_text(v), ..m },
            Key::KeyColumns => TableModel { key_columns: dec_opt_texts(v), ..m },
            Key::IsView => TableModel { is_view: dec_opt_bool(v), ..m },
            Key::IsDocument => TableModel { is_document: dec_opt_bool(v), ..m },
            Key::IsDeleteable => TableModel { is_deleteable: dec_opt_bool(v), ..m },
            Key::IsChangeLog => TableModel { is_change_log: dec_opt_bool(v), ..m },
            Key::IdentifierColumns => TableModel { identifier_columns: dec_opt_texts(v), ..m },
            Key::SelectionColums => TableModel { selection_colums: dec_opt_texts(v), ..m },
            _ => m,
        }
    }

    pub open spec fn fold_fields(m: TableModel, fs: Seq<(Key, ValModel)>, i: int) -> TableModel
        decreases fs.len() - i,
    {
        if i < 0 || i >= fs.len() {
            m
        } else {
            Table::fold_fields(Table::apply_field(m, fs[i].0, fs[i].1), fs, i + 1)
        }
    }

    /// Decoding of a stored document into a model; only objects decode.
    pub open spec fn dec(v: ValModel) -> Option<TableModel> {
        match v {
            ValModel::Object(fs) => Option::Some(Table::fold_fields(Table::empty_model(), fs, 0)),
            _ => Option::None,
        }
    }

    pub fn empty() -> (r: Table)
        ensures
            r.model() == Table::empty_model(),
    {
        Table {
            uuid: Option::None,
            internal_id: Option::None,
            id: Option::None,
            table_name: Option::None,
            access_level: Option::None,
            key_columns: Option::None,
            is_view: Option::None,
            is_document: Option::None,
            is_deleteable: Option::None,
            is_change_log: Option::None,
            identifier_columns: Option::None,
            selection_colums: Option::None,
        }
    }

    /// The stored payload of this record.
    pub fn encode(&self) -> (r: Value)
        ensures
            r.model() == Table::enc(self.model()),
    {
        let mut fs: Vec<(Key, Value)> = Vec::new();
        fs.push((Key::Uuid, encode_opt_text(&self.uuid)));
        fs.push((Key::InternalId, encode_opt_i32(&self.internal_id)));
        fs.push((Key::Id, encode_opt_text(&self.id)));
        fs.push((Key::TableName, encode_opt_text(&self.table_name)));
        fs.push((Key::AccessLevel, encode_opt_text(&self.access_level)));
        fs.push((Key::KeyColumns, encode_opt_texts(&self.key_columns)));
        fs.push((Key::IsView, encode_opt_bool(&self.is_view)));
        fs.push((Key::IsDocument, encode_opt_bool(&self.is_document)));
        fs.push((Key::IsDeleteable, encode_opt_bool(&self.is_deleteable)));
        fs.push((Key::IsChangeLog, encode_opt_bool(&self.is_change_log)));
        fs.push((Key::IdentifierColumns, encode_opt_texts(&self.identifier_columns)));
        fs.push((Key::SelectionColums, encode_opt_texts(&self.selection_colums)));
        proof {
            lemma_fields_of(fs@);
            let target = Table::enc(self.model())->Object_0;
            assert forall|j: int| 0 <= j < fs@.len() implies Value::fields_of(fs@)[j]
                == target[j] by {
                assert(Value::fields_of(fs@)[j] == (fs@[j].0, fs@[j].1.model()));
            }
            assert(Value::fields_of(fs@) =~= target);
        }
        Value::Object(fs)
    }

    /// Decoding of a stored document; inverse of [`Table::encode`] on the
    /// models.
    pub fn decode(v: &Value) -> (r: Option<Table>)
        ensures
            match (r, Table::dec(v.model())) {
                (Option::Some(x), Option::Some(m)) => x.model() == m,
                (Option::None, Option::None) => true,
                _ => false,
            },
    {
        match v {
            Value::Object(fs) => {
                let ghost fsm = Value::fields_of(fs@);
                proof {
                    lemma_fields_of(fs@);
                }
                let mut out = Table::empty();
                let mut i: usize = 0;
                while i < fs.len()
                    invariant
                        0 <= i <= fs@.len(),
                        fsm == Value::fields_of(fs@),
                        fsm.len() == fs@.len(),
                        forall|k: int|
                            0 <= k < fs@.len() ==> fsm[k] == (#[trigger] fs@[k].0, fs@[k].1.model()),
                        Table::fold_fields(Table::empty_model(), fsm, 0)
                            == Table::fold_fields(out.model(), fsm, i as int),
                    decreases fs@.len() - i,
                {
                    let ghost before = out.model();
                    let (k, v) = &fs[i];
                    match k {
                        Key::Uuid => out.uuid = decode_opt_text(v),
                        Key::InternalId => out.internal_id = decode_opt_i32(v),
                        Key::Id => out.id = decode_opt_text(v),
                        Key::TableName => out.table_name = decode_opt_text(v),
                        Key::AccessLevel => out.access_level = decode_opt_text(v),
                        Key::KeyColumns => out.key_columns = decode_opt_texts(v),
                        Key::IsView => out.is_view = decode_opt_bool(v),
                        Key::IsDocument => out.is_document = decode_opt_bool(v),
                        Key::IsDeleteable => out.is_deleteable = decode_opt_bool(v),
                        Key::IsChangeLog => out.is_change_log = decode_opt_bool(v),
                        Key::IdentifierColumns => out.identifier_columns = decode_opt_texts(v),
                        Key::SelectionColums => out.selection_colums = decode_opt_texts(v),
                        _ => {
                        },
                    }
                    proof {
                        assert(out.model() == Table::apply_field(before, fsm[i as int].0, fsm[i as int].1));
                    }
                    i = i + 1;
                }
                Option::Some(out)
            },
            _ => Option::None,
        }
    }
}

/// The model of an optional table record.
pub open spec fn view_opt_table(o: Option<Table>) -> Option<TableModel> {
    match o {
        Option::None => Option::None,
        Option::Some(x) => Option::Some(x.model()),
    }
}

pub open spec fn enc_opt_table(o: Option<TableModel>) -> ValModel {
    match o {
        Option::None => ValModel::Null,
        Option::Some(m) => Table::enc(m),
    }
}

pub fn encode_opt_table(o: &Option<Table>) -> (r: Value)
    ensures
        r.model() == enc_opt_table(view_opt_table(*o)),
{
    match o {
        Option::None => Value::Null,
        Option::Some(x) => x.encode(),
    }
}

pub fn decode_opt_table(v: &Value) -> (r: Option<Table>)
    ensures
        view_opt_table(r) == Table::dec(v.model()),
{
    Table::decode(v)
}

/// Decoding inverts encoding for every table record.
#[verifier::rlimit(100)]
pub proof fn lemma_table_round_trip(m: TableModel)
    ensures
        Table::dec(Table::enc(m)) == Option::Some(m),
{
    lemma_opt_texts_round_trip(m.key_columns);
    lemma_opt_texts_round_trip(m.identifier_columns);
    lemma_opt_texts_round_trip(m.selection_colums);
    let fs = Table::enc(m)->Object_0;
    let s0 = Table::empty_model();
    let s1 = Table::apply_field(s0, fs[0].0, fs[0].1);
    let s2 = Table::apply_field(s1, fs[1].0, fs[1].1);
    let s3 = Table::apply_field(s2, fs[2].0, fs[2].1);
    let s4 = Table::apply_field(s3, fs[3].0, fs[3].1);
    let s5 = Table::apply_field(s4, fs[4].0, fs[4].1);
    let s6 = Table::apply_field(s5, fs[5].0, fs[5].1);
    let s7 = Table::apply_field(s6, fs[6].0, fs[6].1);
    let s8 = Table::apply_field(s7, fs[7].0, fs[7].1);
    let s9 = Table::apply_field(s8, fs[8].0, fs[8].1);
    let s10 = Table::apply_field(s9, fs[9].0, fs[9].1);
    let s11 = Table::apply_field(s10, fs[10].0, fs[10].1);
    let s12 = Table::apply_field(s11, fs[11].0, fs[11].1);
    assert(Table::fold_fields(s12, fs, 12) == s12);
    assert(Table::fold_fields(s11, fs, 11) == s12);
    assert(Table::fold_fields(s10, fs, 10) == s12);
    assert(Table::fold_fields(s9, fs, 9) == s12);
    assert(Table::fold_fields(s8, fs, 8) == s12);
    assert(Table::fold_fields(s7, fs, 7) == s12);
    assert(Table::fold_fields(s6, fs, 6) == s12);
    assert(Table::fold_fields(s5, fs, 5) == s12);
    assert(Table::fold_fields(s4, fs, 4) == s12);
    assert(Table::fold_fields(s3, fs, 3) == s12);
    assert(Table::fold_fields(s2, fs, 2) == s12);
    assert(Table::fold_fields(s1, fs, 1) == s12);
    assert(Table::fold_fields(s0, fs, 0) == s12);
    assert(s12 == m);
}

} // verus!
