//! The role record: identity, the menu tree it renders, and the
//! allow-lists of dictionary objects its members may see.

use vstd::prelude::*;
use crate::text::view_opt;
use crate::value::dec_opt_bool;
use crate::value::dec_opt_i32;
use crate::value::dec_opt_text;
use crate::value::dec_opt_texts;
use crate::value::decode_opt_bool;
use crate::value::decode_opt_i32;
use crate::value::decode_opt_text;
use crate::value::decode_opt_texts;
use crate::value::enc_opt_bool;
use crate::value::enc_opt_i32;
use crate::value::enc_opt_text;
use crate::value::enc_opt_texts;
use crate::value::encode_opt_bool;
use crate::value::encode_opt_i32;
use crate::value::encode_opt_text;
use crate::value::encode_opt_texts;
use crate::value::lemma_fields_of;
use crate::value::lemma_models_of;
use crate::value::lemma_opt_texts_round_trip;
use crate::value::view_opt_texts;
use crate::value::Key;
use crate::value::ValModel;
use crate::value::Value;


verus! {

/// A role: each `_access` list holds the UUIDs of the dictionary objects
/// the role may see.
#[derive(Debug, Clone)]
pub struct Role {
    pub uuid: Option<String>,
    pub id: Option<String>,
    pub internal_id: Option<i32>,
    pub name: Option<String>,
    pub description: Option<String>,
    pub tree_id: Option<i32>,
    pub tree_uuid: Option<String>,
    pub index_value: Option<String>,
    pub language: Option<String>,
    pub client_id: Option<String>,
    pub role_id: Option<String>,
    pub user_id: Option<String>,
    pub window_access: Option<Vec<String>>,
    pub process_access: Option<Vec<String>>,
    pub form_access: Option<Vec<String>>,
    pub browser_access: Option<Vec<String>>,
    pub workflow_access: Option<Vec<String>>,
    pub dashboard_access: Option<Vec<String>>,
}

/// The mathematical model of a [`Role`].
pub struct RoleModel {
    pub uuid: Option<Seq<char>>,
    pub id: Option<Seq<char>>,
    pub internal_id: Option<i32>,
    pub name: Option<Seq<char>>,
    pub description: Option<Seq<char>>,
    pub tree_id: Option<i32>,
    pub tree_uuid: Option<Seq<char>>,
    pub index_value: Option<Seq<char>>,
    pub language: Option<Seq<char>>,
    pub client_id: Option<Seq<char>>,
    pub role_id: Option<Seq<char>>,
    pub user_id: Option<Seq<char>>,
    pub window_access: Option<Seq<Seq<char>>>,
    pub process_access: Option<Seq<Seq<char>>>,
    pub form_access: Option<Seq<Seq<char>>>,
    pub browser_access: Option<Seq<Seq<char>>>,
    pub workflow_access: Option<Seq<Seq<char>>>,
    pub dashboard_access: Option<Seq<Seq<char>>>,
}

impl Role {
    pub open spec fn model(self) -> RoleModel {
        RoleModel {
            uuid: view_opt(self.uuid),
            id: view_opt(self.id),
            internal_id: self.internal_id,
            name: view_opt(self.name),
            description: view_opt(self.description),
            tree_id: self.tree_id,
            tree_uuid: view_opt(self.tree_uuid),
            index_value: view_opt(self.index_value),
            language: view_opt(self.language),
            client_id: view_opt(self.client_id),
            role_id: view_opt(self.role_id),
            user_id: view_opt(self.user_id),
            window_access: view_opt_texts(self.window_access),
            process_access: view_opt_texts(self.process_access),
            form_access: view_opt_texts(self.form_access),
            browser_access: view_opt_texts(self.browser_access),
            workflow_access: view_opt_texts(self.workflow_access),
            dashboard_access: view_opt_texts(self.dashboard_access),
        }
    }

    pub open spec fn empty_model() -> RoleModel {
        RoleModel {
            uuid: Option::None,
            id: Option::None,
            internal_id: Option::None,
            name: Option::None,
            description: Option::None,
            tree_id: Option::None,
            tree_uuid: Option::None,
            index_value: Option::None,
            language: Option::None,
            client_id: Option::None,
            role_id: Option::None,
            user_id: Option::None,
            window_access: Option::None,
            process_access: Option::None,
            form_access: Option::None,
            browser_access: Option::None,
            workflow_access: Option::None,
            dashboard_access: Option::None,
        }
    }

    /// The stored shape: every field present under its key, absent values
    /// as null.
    pub open spec fn enc(m: RoleModel) -> ValModel {
        ValModel::Object(
            seq![
                (Key::Uuid, enc_opt_text(m.uuid)),
                (Key::Id, enc_opt_text(m.id)),
                (Key::InternalId, enc_opt_i32(m.internal_id)),
                (Key::Name, enc_opt_text(m.name)),
                (Key::Description, enc_opt_text(m.description)),
                (Key::TreeId, enc_opt_i32(m.tree_id)),
                (Key::TreeUuid, enc_opt_text(m.tree_uuid)),
                (Key::IndexValue, enc_opt_text(m.index_value)),
                (Key::Language, enc_opt_text(m.language)),
                (Key::ClientId, enc_opt_text(m.client_id)),
                (Key::RoleId, enc_opt_text(m.role_id)),
                (Key::UserId, enc_opt_text(m.user_id)),
                (Key::WindowAccess, enc_opt_texts(m.window_access)),
                (Key::ProcessAccess, enc_opt_texts(m.process_access)),
                (Key::FormAccess, enc_opt_texts(m.form_access)),
                (Key::BrowserAccess, enc_opt_texts(m.browser_access)),
                (Key::WorkflowAccess, enc_opt_texts(m.workflow_access)),
                (Key::DashboardAccess, enc_opt_texts(m.dashboard_access)),
            ],
        )
    }

    /// One decoding step: a recognized key sets its field; unknown keys are
    /// ignored.
    pub open spec fn apply_field(m: RoleModel, k: Key, v: ValModel) -> RoleModel {
        match k {
            Key::Uuid => RoleModel { uuid: dec_opt_text(v), ..m },
            Key::Id => RoleModel { id: dec_opt_text(v), ..m },
            Key::InternalId => RoleModel { internal_id: dec_opt_i32(v), ..m },
            Key::Name => RoleModel { name: dec_opt_text(v), ..m },
            Key::Description => RoleModel { description: dec_opt_text(v), ..m },
            Key::TreeId => RoleModel { tree_id: dec_opt_i32(v), ..m },
            Key::TreeUuid => RoleModel { tree_uuid: dec_opt_text(v), ..m },
            Key::IndexValue => RoleModel { index_value: dec_opt_text(v), ..m },
            Key::Language => RoleModel { language: dec_opt_text(v), ..m },
            Key::ClientId => RoleModel { client_id: dec_opt_text(v), ..m },
            Key::RoleId => RoleModel { role_id: dec_opt_text(v), ..m },
            Key::UserId => RoleModel { user_id: dec_opt_text(v), ..m },
            Key::WindowAccess => RoleModel { window_access: dec_opt_texts(v), ..m },
            Key::ProcessAccess => RoleModel { process_access: dec_opt_texts(v), ..m },
            Key::FormAccess => RoleModel { form_access: dec_opt_texts(v), ..m },
            Key::BrowserAccess => RoleModel { browser_access: dec_opt_texts(v), ..m },
            Key::WorkflowAccess => RoleModel { workflow_access: dec_opt_texts(v), ..m },
            Key::DashboardAccess => RoleModel { dashboard_access: dec_opt_texts(v), ..m },
            _ => m,
        }
    }

    pub open spec fn fold_fields(m: RoleModel, fs: Seq<(Key, ValModel)>, i: int) -> RoleModel
        decreases fs.len() - i,
    {
        if i < 0 || i >= fs.len() {
            m
        } else {
            Role::fold_fields(Role::apply_field(m, fs[i].0, fs[i].1), fs, i + 1)
        }
    }

    /// Decoding of a stored document into a model; only objects decode.
    pub open spec fn dec(v: ValModel) -> Option<RoleModel> {
        match v {
            ValModel::Object(fs) => Option::Some(Role::fold_fields(Role::empty_model(), fs, 0)),
            _ => Option::None,
        }
    }

    pub fn empty() -> (r: Role)
        ensures
            r.model() == Role::empty_model(),
    {
        Role {
            uuid: Option::None,
            id: Option::None,
            internal_id: Option::None,
            name: Option::None,
            description: Option::None,
            tree_id: Option::None,
            tree_uuid: Option::None,
            index_value: Option::None,
            language: Option::None,
            client_id: Option::None,
            role_id: Option::None,
            user_id: Option::None,
            window_access: Option::None,
            process_access: Option::None,
            form_access: Option::None,
            browser_access: Option::None,
            workflow_access: Option::None,
            dashboard_access: Option::None,
        }
    }

    /// The stored payload of this record.
    pub fn encode(&self) -> (r: Value)
        ensures
            r.model() == Role::enc(self.model()),
    {
        let mut fs: Vec<(Key, Value)> = Vec::new();
        fs.push((Key::Uuid, encode_opt_text(&self.uuid)));
        fs.push((Key::Id, encode_opt_text(&self.id)));
        fs.push((Key::InternalId, encode_opt_i32(&self.internal_id)));
        fs.push((Key::Name, encode_opt_text(&self.name)));
        fs.push((Key::Description, encode_opt_text(&self.description)));
        fs.push((Key::TreeId, encode_opt_i32(&self.tree_id)));
        fs.push((Key::TreeUuid, encode_opt_text(&self.tree_uuid)));
        fs.push((Key::IndexValue, encode_opt_text(&self.index_value)));
        fs.push((Key::Language, encode_opt_text(&self.language)));
        fs.push((Key::ClientId, encode_opt_text(&self.client_id)));
        fs.push((Key::RoleId, encode_opt_text(&self.role_id)));
        fs.push((Key::UserId, encode_opt_text(&self.user_id)));
        fs.push((Key::WindowAccess, encode_opt_texts(&self.window_access)));
        fs.push((Key::ProcessAccess, encode_opt_texts(&self.process_access)));
        fs.push((Key::FormAccess, encode_opt_texts(&self.form_access)));
        fs.push((Key::BrowserAccess, encode_opt_texts(&self.browser_access)));
        fs.push((Key::WorkflowAccess, encode_opt_texts(&self.workflow_access)));
        fs.push((Key::DashboardAccess, encode_opt_texts(&self.dashboard_access)));
        proof {
            lemma_fields_of(fs@);
            let target = Role::enc(self.model())->Object_0;
            assert forall|j: int| 0 <= j < fs@.len() implies Value::fields_of(fs@)[j]
                == target[j] by {
                assert(Value::fields_of(fs@)[j] == (fs@[j].0, fs@[j].1.model()));
            }
            assert(Value::fields_of(fs@) =~= target);
        }
        Value::Object(fs)
    }

    /// Decoding of a stored document; inverse of [`Role::encode`] on the
    /// models.
    pub fn decode(v: &Value) -> (r: Option<Role>)
        ensures
            match (r, Role::dec(v.model())) {
                (Option::Some(x), Option::Some(m)) => x.model() == m,
                (Option::None, Option::None) => true,
                _ => false,
            },
    {
        match v {
            Value::Object(fs) => {
                let ghost fsm = Value::fields_of(fs@);
                proof {
                    lemma_fields_of(fs@);
                }
                let mut out = Role::empty();
                let mut i: usize = 0;
                while i < fs.len()
                    invariant
                        0 <= i <= fs@.len(),
                        fsm == Value::fields_of(fs@),
                        fsm.len() == fs@.len(),
                        forall|k: int|
                            0 <= k < fs@.len() ==> fsm[k] == (#[trigger] fs@[k].0, fs@[k].1.model()),
                        Role::fold_fields(Role::empty_model(), fsm, 0)
                            == Role::fold_fields(out.model(), fsm, i as int),
                    decreases fs@.len() - i,
                {
                    let ghost before = out.model();
                    let (k, v) = &fs[i];
                    match k {
                        Key::Uuid => out.uuid = decode_opt_text(v),
                        Key::Id => out.id = decode_opt_text(v),
                        Key::InternalId => out.internal_id = decode_opt_i32(v),
                        Key::Name => out.name = decode_opt_text(v),
                        Key::Description => out.description = decode_opt_text(v),
                        Key::TreeId => out.tree_id = decode_opt_i32(v),
                        Key::TreeUuid => out.tree_uuid = decode_opt_text(v),
                        Key::IndexValue => out.index_value = decode_opt_text(v),
                        Key::Language => out.language = decode_opt_text(v),
                        Key::ClientId => out.client_id = decode_opt_text(v),
                        Key::RoleId => out.role_id = decode_opt_text(v),
                        Key::UserId => out.user_id = decode_opt_text(v),
                        Key::WindowAccess => out.window_access = decode_opt_texts(v),
                        Key::ProcessAccess => out.process_access = decode_opt_texts(v),
                        Key::FormAccess => out.form_access = decode_opt_texts(v),
                        Key::BrowserAccess => out.browser_access = decode_opt_texts(v),
                        Key::WorkflowAccess => out.workflow_access = decode_opt_texts(v),
                        Key::DashboardAccess => out.dashboard_access = decode_opt_texts(v),
                        _ => {
                        },
                    }
                    proof {
                        assert(out.model() == Role::apply_field(before, fsm[i as int].0, fsm[i as int].1));
                    }
                    i = i + 1;
                }
                Option::Some(out)
            },
            _ => Option::None,
        }
    }
}

/// The model of an optional role record.
pub open spec fn view_opt_role(o: Option<Role>) -> Option<RoleModel> {
    match o {
        Option::None => Option::None,
        Option::Some(x) => Option::Some(x.model()),
    }
}

pub open spec fn enc_opt_role(o: Option<RoleModel>) -> ValModel {
    match o {
        Option::None => ValModel::Null,
        Option::Some(m) => Role::enc(m),
    }
}

pub fn encode_opt_role(o: &Option<Role>) -> (r: Value)
    ensures
        r.model() == enc_opt_role(view_opt_role(*o)),
{
    match o {
        Option::None => Value::Null,
        Option::Some(x) => x.encode(),
    }
}

pub fn decode_opt_role(v: &Value) -> (r: Option<Role>)
    ensures
        view_opt_role(r) == Role::dec(v.model()),
{
    Role::decode(v)
}

/// Decoding inverts encoding for every role record.
#[verifier::rlimit(100)]
pub proof fn lemma_role_round_trip(m: RoleModel)
    ensures
        Role::dec(Role::enc(m)) == Option::Some(m),
{
    lemma_opt_texts_round_trip(m.window_access);
    lemma_opt_texts_round_trip(m.process_access);
    lemma_opt_texts_round_trip(m.form_access);
    lemma_opt_texts_round_trip(m.browser_access);
    lemma_opt_texts_round_trip(m.workflow_access);
    lemma_opt_texts_round_trip(m.dashboard_access);
    let fs = Role::enc(m)->Object_0;
    let s0 = Role::empty_model();
    let s1 = Role::apply_field(s0, fs[0].0, fs[0].1);
    let s2 = Role::apply_field(s1, fs[1].0, fs[1].1);
    let s3 = Role::apply_field(s2, fs[2].0, fs[2].1);
    let s4 = Role::apply_field(s3, fs[3].0, fs[3].1);
    let s5 = Role::apply_field(s4, fs[4].0, fs[4].1);
    let s6 = Role::apply_field(s5, fs[5].0, fs[5].1);
    let s7 = Role::apply_field(s6, fs[6].0, fs[6].1);
    let s8 = Role::apply_field(s7, fs[7].0, fs[7].1);
    let s9 = Role::apply_field(s8, fs[8].0, fs[8].1);
    let s10 = Role::apply_field(s9, fs[9].0, fs[9].1);
    let s11 = Role::apply_field(s10, fs[10].0, fs[10].1);
    let s12 = Role::apply_field(s11, fs[11].0, fs[11].1);
    let s13 = Role::apply_field(s12, fs[12].0, fs[12].1);
    let s14 = Role::apply_field(s13, fs[13].0, fs[13].1);
    let s15 = Role::apply_field(s14, fs[14].0, fs[14].1);
    let s16 = Role::apply_field(s15, fs[15].0, fs[15].1);
    let s17 = Role::apply_field(s16, fs[16].0, fs[16].1);
    let s18 = Role::apply_field(s17, fs[17].0, fs[17].1);
    assert(Role::fold_fields(s18, fs, 18) == s18);
    assert(Role::fold_fields(s17, fs, 17) == s18);
    assert(Role::fold_fields(s16, fs, 16) == s18);
    assert(Role::fold_fields(s15, fs, 15) == s18);
    assert(Role::fold_fields(s14, fs, 14) == s18);
    assert(Role::fold_fields(s13, fs, 13) == s18);
    assert(Role::fold_fields(s12, fs, 12) == s18);
    assert(Role::fold_fields(s11, fs, 11) == s18);
    assert(Role::fold_fields(s10, fs, 10) == s18);
    assert(Role::fold_fields(s9, fs, 9) == s18);
    assert(Role::fold_fields(s8, fs, 8) == s18);
    assert(Role::fold_fields(s7, fs, 7) == s18);
    assert(Role::fold_fields(s6, fs, 6) == s18);
    assert(Role::fold_fields(s5, fs, 5) == s18);
    assert(Role::fold_fields(s4, fs, 4) == s18);
    assert(Role::fold_fields(s3, fs, 3) == s18);
    assert(Role::fold_fields(s2, fs, 2) == s18);
    assert(Role::fold_fields(s1, fs, 1) == s18);
    assert(Role::fold_fields(s0, fs, 0) == s18);
    assert(s18 == m);
}

/// The CDC envelope around one role record.
#[derive(Debug)]
pub struct RoleDocument {
    pub document: Option<Role>,
}

/// The response around one record.
#[derive(Debug)]
pub struct RoleResponse {
    pub role: Option<Role>,
}

impl Default for RoleResponse {
    fn default() -> (r: Self)
        ensures
            r.role is None,
    {
        RoleResponse { role: Option::None }
    }
}

/// The response around a list of records.
#[derive(Debug)]
pub struct RoleListResponse {
    pub roles: Option<Vec<Role>>,
}

impl Role {
    /// A lookup probe carrying only the record UUID.
    pub fn from_id(id: Option<&String>) -> (r: Role)
        ensures
            r.model() == (RoleModel {
                uuid: crate::indexes::view_opt_ref(id),
                ..Role::empty_model()
            }),
    {
        let mut record = Role::empty();
        record.uuid = match id {
            Option::Some(s) => Option::Some(s.clone()),
            Option::None => Option::None,
        };
        record
    }
}

impl Role {
    /// A short description of the record for diagnostics.
    pub fn to_string(&self) -> (r: String)
        ensures
            r@ == "Role UUID "@ + (match self.uuid {
                Option::Some(u) => u@,
                Option::None => Seq::empty(),
            }) + " Index "@ + (match self.index_value {
                Option::Some(v) => v@,
                Option::None => Seq::empty(),
            }),
    {
        let mut out = "Role UUID ".to_owned();
        match &self.uuid {
            Option::Some(u) => out.append(u.as_str()),
            Option::None => {
            },
        }
        out.append(" Index ");
        match &self.index_value {
            Option::Some(v) => out.append(v.as_str()),
            Option::None => {
            },
        }
        out
    }
}

impl Default for Role {
    fn default() -> (r: Role)
        ensures
            r.model() == Role::empty_model(),
    {
        Role::empty()
    }
}

} // verus!
