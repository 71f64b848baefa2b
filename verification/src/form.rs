//! The form dictionary entity: a custom window backed by a class file.

use vstd::prelude::*;
use crate::text::view_opt;
use crate::value::dec_opt_bool;
use crate::value::dec_opt_i32;
use crate::value::dec_opt_text;
use crate::value::dec_opt_texts;
use crate::value::decode_opt_bool;
use crate::value::decode_opt_i32;
use crate::value::decode_opt_text;
use crate::value::decode_opt_texts;
use crate::value::enc_opt_bool;
use crate::value::enc_opt_i32;
use crate::value::enc_opt_text;
use crate::value::enc_opt_texts;
use crate::value::encode_opt_bool;
use crate::value::encode_opt_i32;
use crate::value::encode_opt_text;
use crate::value::encode_opt_texts;
use crate::value::lemma_fields_of;
use crate::value::lemma_models_of;
use crate::value::lemma_opt_texts_round_trip;
use crate::value::view_opt_texts;
use crate::value::Key;
use crate::value::ValModel;
use crate::value::Value;


verus! {

/// A form dictionary object.
#[derive(Debug, Clone)]
pub struct Form {
    pub uuid: Option<String>,
    pub id: Option<String>,
    pub internal_id: Option<i32>,
    pub file_name: Option<String>,
    pub name: Option<String>,
    pub description: Option<String>,
    pub help: Option<String>,
    pub is_active: Option<bool>,
    pub is_beta_functionality: Option<bool>,
    pub index_value: Option<String>,
    pub language: Option<String>,
    pub client_id: Option<String>,
    pub role_id: Option<String>,
    pub user_id: Option<String>,
}

/// The mathematical model of a [`Form`].
pub struct FormModel {
    pub uuid: Option<Seq<char>>,
    pub id: Option<Seq<char>>,
    pub internal_id: Option<i32>,
    pub file_name: Option<Seq<char>>,
    pub name: Option<Seq<char>>,
    pub description: Option<Seq<char>>,
    pub help: Option<Seq<char>>,
    pub is_active: Option<bool>,
    pub is_beta_functionality: Option<bool>,
    pub index_value: Option<Seq<char>>,
    pub language: Option<Seq<char>>,
    pub client_id: Option<Seq<char>>,
    pub role_id: Option<Seq<char>>,
    pub user_id: Option<Seq<char>>,
}

impl Form {
    pub open spec fn model(self) -> FormModel {
        FormModel {
            uuid: view_opt(self.uuid),
            id: view_opt(self.id),
            internal_id: self.internal_id,
            file_name: view_opt(self.file_name),
            name: view_opt(self.name),
            description: view_opt(self.description),
            help: view_opt(self.help),
            is_active: self.is_active,
            is_beta_functionality: self.is_beta_functionality,
            index_value: view_opt(self.index_value),
            language: view_opt(self.language),
            client_id: view_opt(self.client_id),
            role_id: view_opt(self.role_id),
            user_id: view_opt(self.user_id),
        }
    }

    pub open spec fn empty_model() -> FormModel {
        FormModel {
            uuid: Option::None,
            id: Option::None,
            internal_id: Option::None,
            file_name: Option::None,
            name: Option::None,
            description: Option::None,
            help: Option::None,
            is_active: Option::None,
            is_beta_functionality: Option::None,
            index_value: Option::None,
            language: Option::None,
            client_id: Option::None,
            role_id: Option::None,
            user_id: Option::None,
        }
    }

    /// The stored shape: every field present under its key, absent values
    /// as null.
    pub open spec fn enc(m: FormModel) -> ValModel {
        ValModel::Object(
            seq![
                (Key::Uuid, enc_opt_text(m.uuid)),
                (Key::Id, enc_opt_text(m.id)),
                (Key::InternalId, enc_opt_i32(m.internal_id)),
                (Key::FileName, enc_opt_text(m.file_name)),
                (Key::Name, enc_opt_text(m.name)),
                (Key::Description, enc_opt_text(m.description)),
                (Key::Help, enc_opt_text(m.help)),
                (Key::IsActive, enc_opt_bool(m.is_active)),
                (Key::IsBetaFunctionality, enc_opt_bool(m.is_beta_functionality)),
                (Key::IndexValue, enc_opt_text(m.index_value)),
                (Key::Language, enc_opt_text(m.language)),
                (Key::ClientId, enc_opt_text(m.client_id)),
                (Key::RoleId, enc_opt_text(m.role_id)),
                (Key::UserId, enc_opt_text(m.user_id)),
            ],
        )
    }

    /// One decoding step: a recognized key sets its field; unknown keys are
    /// ignored.
    pub open spec fn apply_field(m: FormModel, k: Key, v: ValModel) -> FormModel {
        match k {
            Key::Uuid => FormModel { uuid: dec_opt_text(v), ..m },
            Key::Id => FormModel { id: dec_opt_text(v), ..m },
            Key::InternalId => FormModel { internal_id: dec_opt_i32(v), ..m },
            Key::FileName => FormModel { file_name: dec_opt_text(v), ..m },
            Key::Name => FormModel { name: dec_opt_text(v), ..m },
            Key::Description => FormModel { description: dec_opt_text(v), ..m },
            Key::Help => FormModel { help: dec_opt_text(v), ..m },
            Key::IsActive => FormModel { is_active: dec_opt_bool(v), ..m },
            Key::IsBetaFunctionality => FormModel { is_beta_functionality: dec_opt_bool(v), ..m },
            Key::IndexValue => FormModel { index_value: dec_opt_text(v), ..m },
            Key::Language => FormModel { language: dec_opt_text(v), ..m },
            Key::ClientId => FormModel { client_id: dec_opt_text(v), ..m },
            Key::RoleId => FormModel { role_id: dec_opt_text(v), ..m },
            Key::UserId => FormModel { user_id: dec_opt_text(v), ..m },
            _ => m,
        }
    }

    pub open spec fn fold_fields(m: FormModel, fs: Seq<(Key, ValModel)>, i: int) -> FormModel
        decreases fs.len() - i,
    {
        if i < 0 || i >= fs.len() {
            m
        } else {
            Form::fold_fields(Form::apply_field(m, fs[i].0, fs[i].1), fs, i + 1)
        }
    }

    /// Decoding of a stored document into a model; only objects decode.
    pub open spec fn dec(v: ValModel) -> Option<FormModel> {
        match v {
            ValModel::Object(fs) => Option::Some(Form::fold_fields(Form::empty_model(), fs, 0)),
            _ => Option::None,
        }
    }

    pub fn empty() -> (r: Form)
        ensures
            r.model() == Form::empty_model(),
    {
        Form {
            uuid: Option::None,
            id: Option::None,
            internal_id: Option::None,
            file_name: Option::None,
            name: Option::None,
            description: Option::None,
            help: Option::None,
            is_active: Option::None,
            is_beta_functionality: Option::None,
            index_value: Option::None,
            language: Option::None,
            client_id: Option::None,
            role_id: Option::None,
            user_id: Option::None,
        }
    }

    /// The stored payload of this record.
    pub fn encode(&self) -> (r: Value)
        ensures
            r.model() == Form::enc(self.model()),
    {
        let mut fs: Vec<(Key, Value)> = Vec::new();
        fs.push((Key::Uuid, encode_opt_text(&self.uuid)));
        fs.push((Key::Id, encode_opt_text(&self.id)));
        fs.push((Key::InternalId, encode_opt_i32(&self.internal_id)));
        fs.push((Key::FileName, encode_opt_text(&self.file_name)));
        fs.push((Key::Name, encode_opt_text(&self.name)));
        fs.push((Key::Description, encode_opt_text(&self.description)));
        fs.push((Key::Help, encode_opt_text(&self.help)));
        fs.push((Key::IsActive, encode_opt_bool(&self.is_active)));
        fs.push((Key::IsBetaFunctionality, encode_opt_bool(&self.is_beta_functionality)));
        fs.push((Key::IndexValue, encode_opt_text(&self.index_value)));
        fs.push((Key::Language, encode_opt_text(&self.language)));
        fs.push((Key::ClientId, encode_opt_text(&self.client_id)));
        fs.push((Key::RoleId, encode_opt_text(&self.role_id)));
        fs.push((Key::UserId, encode_opt_text(&self.user_id)));
        proof {
            lemma_fields_of(fs@);
            let target = Form::enc(self.model())->Object_0;
            assert forall|j: int| 0 <= j < fs@.len() implies Value::fields_of(fs@)[j]
                == target[j] by {
                assert(Value::fields_of(fs@)[j] == (fs@[j].0, fs@[j].1.model()));
            }
            assert(Value::fields_of(fs@) =~= target);
        }
        Value::Object(fs)
    }

    /// Decoding of a stored document; inverse of [`Form::encode`] on the
    /// models.
    pub fn decode(v: &Value) -> (r: Option<Form>)
        ensures
            match (r, Form::dec(v.model())) {
                (Option::Some(x), Option::Some(m)) => x.model() == m,
                (Option::None, Option::None) => true,
                _ => false,
            },
    {
        match v {
            Value::Object(fs) => {
                let ghost fsm = Value::fields_of(fs@);
                proof {
                    lemma_fields_of(fs@);
                }
                let mut out = Form::empty();
                let mut i: usize = 0;
                while i < fs.len()
                    invariant
                        0 <= i <= fs@.len(),
                        fsm == Value::fields_of(fs@),
                        fsm.len() == fs@.len(),
                        forall|k: int|
                            0 <= k < fs@.len() ==> fsm[k] == (#[trigger] fs@[k].0, fs@[k].1.model()),
                        Form::fold_fields(Form::empty_model(), fsm, 0)
                            == Form::fold_fields(out.model(), fsm, i as int),
                    decreases fs@.len() - i,
                {
                    let ghost before = out.model();
                    let (k, v) = &fs[i];
                    match k {
                        Key::Uuid => out.uuid = decode_opt_text(v),
                        Key::Id => out.id = decode_opt_text(v),
                        Key::InternalId => out.internal_id = decode_opt_i32(v),
                        Key::FileName => out.file_name = decode_opt_text(v),
                        Key::Name => out.name = decode_opt_text(v),
                        Key::Description => out.description = decode_opt_text(v),
                        Key::Help => out.help = decode_opt_text(v),
                        Key::IsActive => out.is_active = decode_opt_bool(v),
                        Key::IsBetaFunctionality => out.is_beta_functionality = decode_opt_bool(v),
                        Key::IndexValue => out.index_value = decode_opt_text(v),
                        Key::Language => out.language = decode_opt_text(v),
                        Key::ClientId => out.client_id = decode_opt_text(v),
                        Key::RoleId => out.role_id = decode_opt_text(v),
                        Key::UserId => out.user_id = decode_opt_text(v),
                        _ => {
                        },
                    }
                    proof {
                        assert(out.model() == Form::apply_field(before, fsm[i as int].0, fsm[i as int].1));
                    }
                    i = i + 1;
                }
                Option::Some(out)
            },
            _ => Option::None,
        }
    }
}

/// The model of an optional form record.
pub open spec fn view_opt_form(o: Option<Form>) -> Option<FormModel> {
    match o {
        Option::None => Option::None,
        Option::Some(x) => Option::Some(x.model()),
    }
}

pub open spec fn enc_opt_form(o: Option<FormModel>) -> ValModel {
    match o {
        Option::None => ValModel::Null,
        Option::Some(m) => Form::enc(m),
    }
}

pub fn encode_opt_form(o: &Option<Form>) -> (r: Value)
    ensures
        r.model() == enc_opt_form(view_opt_form(*o)),
{
    match o {
        Option::None => Value::Null,
        Option::Some(x) => x.encode(),
    }
}

pub fn decode_opt_form(v: &Value) -> (r: Option<Form>)
    ensures
        view_opt_form(r) == Form::dec(v.model()),
{
    Form::decode(v)
}

/// Decoding inverts encoding for every form record.
#[verifier::rlimit(100)]
pub proof fn lemma_form_round_trip(m: FormModel)
    ensures
        Form::dec(Form::enc(m)) == Option::Some(m),
{
    let fs = Form::enc(m)->Object_0;
    let s0 = Form::empty_model();
    let s1 = Form::apply_field(s0, fs[0].0, fs[0].1);
    let s2 = Form::apply_field(s1, fs[1].0, fs[1].1);
    let s3 = Form::apply_field(s2, fs[2].0, fs[2].1);
    let s4 = Form::apply_field(s3, fs[3].0, fs[3].1);
    let s5 = Form::apply_field(s4, fs[4].0, fs[4].1);
    let s6 = Form::apply_field(s5, fs[5].0, fs[5].1);
    let s7 = Form::apply_field(s6, fs[6].0, fs[6].1);
    let s8 = Form::apply_field(s7, fs[7].0, fs[7].1);
    let s9 = Form::apply_field(s8, fs[8].0, fs[8].1);
    let s10 = Form::apply_field(s9, fs[9].0, fs[9].1);
    let s11 = Form::apply_field(s10, fs[10].0, fs[10].1);
    let s12 = Form::apply_field(s11, fs[11].0, fs[11].1);
    let s13 = Form::apply_field(s12, fs[12].0, fs[12].1);
    let s14 = Form::apply_field(s13, fs[13].0, fs[13].1);
    assert(Form::fold_fields(s14, fs, 14) == s14);
    assert(Form::fold_fields(s13, fs, 13) == s14);
    assert(Form::fold_fields(s12, fs, 12) == s14);
    assert(Form::fold_fields(s11, fs, 11) == s14);
    assert(Form::fold_fields(s10, fs, 10) == s14);
    assert(Form::fold_fields(s9, fs, 9) == s14);
    assert(Form::fold_fields(s8, fs, 8) == s14);
    assert(Form::fold_fields(s7, fs, 7) == s14);
    assert(Form::fold_fields(s6, fs, 6) == s14);
    assert(Form::fold_fields(s5, fs, 5) == s14);
    assert(Form::fold_fields(s4, fs, 4) == s14);
    assert(Form::fold_fields(s3, fs, 3) == s14);
    assert(Form::fold_fields(s2, fs, 2) == s14);
    assert(Form::fold_fields(s1, fs, 1) == s14);
    assert(Form::fold_fields(s0, fs, 0) == s14);
    assert(s14 == m);
}

/// The CDC envelope around one form record.
#[derive(Debug)]
pub struct FormDocument {
    pub document: Option<Form>,
}

/// The response around one record.
#[derive(Debug)]
pub struct FormResponse {
    pub form: Option<Form>,
}

impl Default for FormResponse {
    fn default() -> (r: Self)
        ensures
            r.form is None,
    {
        FormResponse { form: Option::None }
    }
}

/// The response around a list of records.
#[derive(Debug)]
pub struct FormsListResponse {
    pub forms: Option<Vec<Form>>,
}

impl Form {
    /// A lookup probe carrying only the id.
    pub fn from_id(id: Option<String>) -> (r: Form)
        ensures
            r.model() == (FormModel { id: crate::text::view_opt(id), ..Form::empty_model() }),
    {
        let mut record = Form::empty();
        record.id = id;
        record
    }
}

impl Form {
    /// A short description of the record for diagnostics.
    pub fn to_string(&self) -> (r: String)
        ensures
            r@ == "Form UUID "@ + (match self.uuid {
                Option::Some(u) => u@,
                Option::None => Seq::empty(),
            }) + " Index "@ + (match self.index_value {
                Option::Some(v) => v@,
                Option::None => Seq::empty(),
            }),
    {
        let mut out = "Form UUID ".to_owned();
        match &self.uuid {
            Option::Some(u) => out.append(u.as_str()),
            Option::None => {
            },
        }
        out.append(" Index ");
        match &self.index_value {
            Option::Some(v) => out.append(v.as_str()),
            Option::None => {
            },
        }
        out
    }
}

impl Default for Form {
    fn default() -> (r: Form)
        ensures
            r.model() == Form::empty_model(),
    {
        Form::empty()
    }
}

} // verus!
