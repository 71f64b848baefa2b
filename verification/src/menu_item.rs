//! The menu-item pool entity: presentation data for one menu node, and
//! the dictionary object its action targets.

use vstd::prelude::*;
use crate::text::view_opt;
use crate::value::dec_opt_bool;
use crate::value::dec_opt_i32;
use crate::value::dec_opt_text;
use crate::value::dec_opt_texts;
use crate::value::decode_opt_bool;
use crate::value::decode_opt_i32;
use crate::value::decode_opt_text;
use crate::value::decode_opt_texts;
use crate::value::enc_opt_bool;
use crate::value::enc_opt_i32;
use crate::value::enc_opt_text;
use crate::value::enc_opt_texts;
use crate::value::encode_opt_bool;
use crate::value::encode_opt_i32;
use crate::value::encode_opt_text;
use crate::value::encode_opt_texts;
use crate::value::lemma_fields_of;
use crate::value::lemma_models_of;
use crate::value::lemma_opt_texts_round_trip;
use crate::value::view_opt_texts;
use crate::value::Key;
use crate::value::ValModel;
use crate::value::Value;

use crate::dictionary::enc_opt_menu_action;
use crate::dictionary::encode_opt_menu_action;
use crate::dictionary::decode_opt_menu_action;
use crate::dictionary::view_opt_menu_action;
use crate::dictionary::lemma_menu_action_round_trip;
use crate::dictionary::MenuAction;
use crate::dictionary::MenuActionModel;

verus! {

/// A menu node of the pool: a leaf carries exactly one action kind and a
/// reference to the targeted dictionary object; a summary node carries
/// none.
#[derive(Debug, Clone)]
pub struct MenuItem {
    pub uuid: Option<String>,
    pub internal_id: Option<i32>,
    pub id: Option<String>,
    pub parent_id: Option<i32>,
    pub sequence: Option<i32>,
    pub name: Option<String>,
    pub description: Option<String>,
    pub is_summary: Option<bool>,
    pub is_sales_transaction: Option<bool>,
    pub is_read_only: Option<bool>,
    pub index_value: Option<String>,
    pub language: Option<String>,
    pub client_id: Option<String>,
    pub role_id: Option<String>,
    pub user_id: Option<String>,
    pub action: Option<String>,
    pub action_id: Option<i32>,
    pub action_uuid: Option<String>,
    pub window: Option<MenuAction>,
    pub process: Option<MenuAction>,
    pub form: Option<MenuAction>,
    pub browser: Option<MenuAction>,
    pub workflow: Option<MenuAction>,
}

/// The mathematical model of a [`MenuItem`].
pub struct MenuItemModel {
    pub uuid: Option<Seq<char>>,
    pub internal_id: Option<i32>,
    pub id: Option<Seq<char>>,
    pub parent_id: Option<i32>,
    pub sequence: Option<i32>,
    pub name: Option<Seq<char>>,
    pub description: Option<Seq<char>>,
    pub is_summary: Option<bool>,
    pub is_sales_transaction: Option<bool>,
    pub is_read_only: Option<bool>,
    pub index_value: Option<Seq<char>>,
    pub language: Option<Seq<char>>,
    pub client_id: Option<Seq<char>>,
    pub role_id: Option<Seq<char>>,
    pub user_id: Option<Seq<char>>,
    pub action: Option<Seq<char>>,
    pub action_id: Option<i32>,
    pub action_uuid: Option<Seq<char>>,
    pub window: Option<MenuActionModel>,
    pub process: Option<MenuActionModel>,
    pub form: Option<MenuActionModel>,
    pub browser: Option<MenuActionModel>,
    pub workflow: Option<MenuActionModel>,
}

impl MenuItem {
    pub open spec fn model(self) -> MenuItemModel {
        MenuItemModel {
            uuid: view_opt(self.uuid),
            internal_id: self.internal_id,
            id: view_opt(self.id),
            parent_id: self.parent_id,
            sequence: self.sequence,
            name: view_opt(self.name),
            description: view_opt(self.description),
            is_summary: self.is_summary,
            is_sales_transaction: self.is_sales_transaction,
            is_read_only: self.is_read_only,
            index_value: view_opt(self.index_value),
            language: view_opt(self.language),
            client_id: view_opt(self.client_id),
            role_id: view_opt(self.role_id),
            user_id: view_opt(self.user_id),
            action: view_opt(self.action),
            action_id: self.action_id,
            action_uuid: view_opt(self.action_uuid),
            window: view_opt_menu_action(self.window),
            process: view_opt_menu_action(self.process),
            form: view_opt_menu_action(self.form),
            browser: view_opt_menu_action(self.browser),
            workflow: view_opt_menu_action(self.workflow),
        }
    }

    pub open spec fn empty_model() -> MenuItemModel {
        MenuItemModel {
            uuid: Option::None,
            internal_id: Option::None,
            id: Option::None,
            parent_id: Option::None,
            sequence: Option::None,
            name: Option::None,
            description: Option::None,
            is_summary: Option::None,
            is_sales_transaction: Option::None,
            is_read_only: Option::None,
            index_value: Option::None,
            language: Option::None,
            client_id: Option::None,
            role_id: Option::None,
            user_id: Option::None,
            action: Option::None,
            action_id: Option::None,
            action_uuid: Option::None,
            window: Option::None,
            process: Option::None,
            form: Option::None,
            browser: Option::None,
            workflow: Option::None,
        }
    }

    /// The stored shape: every field present under its key, absent values
    /// as null.
    pub open spec fn enc(m: MenuItemModel) -> ValModel {
        ValModel::Object(
            seq![
                (Key::Uuid, enc_opt_text(m.uuid)),
                (Key::InternalId, enc_opt_i32(m.internal_id)),
                (Key::Id, enc_opt_text(m.id)),
                (Key::ParentId, enc_opt_i32(m.parent_id)),
                (Key::Sequence, enc_opt_i32(m.sequence)),
                (Key::Name, enc_opt_text(m.name)),
                (Key::Description, enc_opt_text(m.description)),
                (Key::IsSummary, enc_opt_bool(m.is_summary)),
                (Key::IsSalesTransaction, enc_opt_bool(m.is_sales_transaction)),
                (Key::IsReadOnly, enc_opt_bool(m.is_read_only)),
                (Key::IndexValue, enc_opt_text(m.index_value)),
                (Key::Language, enc_opt_text(m.language)),
                (Key::ClientId, enc_opt_text(m.client_id)),
                (Key::RoleId, enc_opt_text(m.role_id)),
                (Key::UserId, enc_opt_text(m.user_id)),
                (Key::Action, enc_opt_text(m.action)),
                (Key::ActionId, enc_opt_i32(m.action_id)),
                (Key::ActionUuid, enc_opt_text(m.action_uuid)),
                (Key::Window, enc_opt_menu_action(m.window)),
                (Key::Process, enc_opt_menu_action(m.process)),
                (Key::Form, enc_opt_menu_action(m.form)),
                (Key::Browser, enc_opt_menu_action(m.browser)),
                (Key::Workflow, enc_opt_menu_action(m.workflow)),
            ],
        )
    }

    /// One decoding step: a recognized key sets its field; unknown keys are
    /// ignored.
    pub open spec fn apply_field(m: MenuItemModel, k: Key, v: ValModel) -> MenuItemModel {
        match k {
            Key::Uuid => MenuItemModel { uuid: dec_opt_text(v), ..m },
            Key::InternalId => MenuItemModel { internal_id: dec_opt_i32(v), ..m },
            Key::Id => MenuItemModel { id: dec_opt_text(v), ..m },
            Key::ParentId => MenuItemModel { parent_id: dec_opt_i32(v), ..m },
            Key::Sequence => MenuItemModel { sequence: dec_opt_i32(v), ..m },
            Key::Name => MenuItemModel { name: dec_opt_text(v), ..m },
            Key::Description => MenuItemModel { description: dec_opt_text(v), ..m },
            Key::IsSummary => MenuItemModel { is_summary: dec_opt_bool(v), ..m },
            Key::IsSalesTransaction => MenuItemModel { is_sales_transaction: dec_opt_bool(v), ..m },
            Key::IsReadOnly => MenuItemModel { is_read_only: dec_opt_bool(v), ..m },
            Key::IndexValue => MenuItemModel { index_value: dec_opt_text(v), ..m },
            Key::Language => MenuItemModel { language: dec_opt_text(v), ..m },
            Key::ClientId => MenuItemModel { client_id: dec_opt_text(v), ..m },
            Key::RoleId => MenuItemModel { role_id: dec_opt_text(v), ..m },
            Key::UserId => MenuItemModel { user_id: dec_opt_text(v), ..m },
            Key::Action => MenuItemModel { action: dec_opt_text(v), ..m },
            Key::ActionId => MenuItemModel { action_id: dec_opt_i32(v), ..m },
            Key::ActionUuid => MenuItemModel { action_uuid: dec_opt_text(v), ..m },
            Key::Window => MenuItemModel { window: MenuAction::dec(v), ..m },
            Key::Process => MenuItemModel { process: MenuAction::dec(v), ..m },
            Key::Form => MenuItemModel { form: MenuAction::dec(v), ..m },
            Key::Browser => MenuItemModel { browser: MenuAction::dec(v), ..m },
            Key::Workflow => MenuItemModel { workflow: MenuAction::dec(v), ..m },
            _ => m,
        }
    }

    pub open spec fn fold_fields(m: MenuItemModel, fs: Seq<(Key, ValModel)>, i: int) -> MenuItemModel
        decreases fs.len() - i,
    {
        if i < 0 || i >= fs.len() {
            m
        } else {
            MenuItem::fold_fields(MenuItem::apply_field(m, fs[i].0, fs[i].1), fs, i + 1)
        }
    }

    /// Decoding of a stored document into a model; only objects decode.
    pub open spec fn dec(v: ValModel) -> Option<MenuItemModel> {
        match v {
            ValModel::Object(fs) => Option::Some(MenuItem::fold_fields(MenuItem::empty_model(), fs, 0)),
            _ => Option::None,
        }
    }

    pub fn empty() -> (r: MenuItem)
        ensures
            r.model() == MenuItem::empty_model(),
    {
        MenuItem {
            uuid: Option::None,
            internal_id: Option::None,
            id: Option::None,
            parent_id: Option::None,
            sequence: Option::None,
            name: Option::None,
            description: Option::None,
            is_summary: Option::None,
            is_sales_transaction: Option::None,
            is_read_only: Option::None,
            index_value: Option::None,
            language: Option::None,
            client_id: Option::None,
            role_id: Option::None,
            user_id: Option::None,
            action: Option::None,
            action_id: Option::None,
            action_uuid: Option::None,
            window: Option::None,
            process: Option::None,
            form: Option::None,
            browser: Option::None,
            workflow: Option::None,
        }
    }

    /// The stored payload of this record.
    pub fn encode(&self) -> (r: Value)
        ensures
            r.model() == MenuItem::enc(self.model()),
    {
        let mut fs: Vec<(Key, Value)> = Vec::new();
        fs.push((Key::Uuid, encode_opt_text(&self.uuid)));
        fs.push((Key::InternalId, encode_opt_i32(&self.internal_id)));
        fs.push((Key::Id, encode_opt_text(&self.id)));
        fs.push((Key::ParentId, encode_opt_i32(&self.parent_id)));
        fs.push((Key::Sequence, encode_opt_i32(&self.sequence)));
        fs.push((Key::Name, encode_opt_text(&self.name)));
        fs.push((Key::Description, encode_opt_text(&self.description)));
        fs.push((Key::IsSummary, encode_opt_bool(&self.is_summary)));
        fs.push((Key::IsSalesTransaction, encode_opt_bool(&self.is_sales_transaction)));
        fs.push((Key::IsReadOnly, encode_opt_bool(&self.is_read_only)));
        fs.push((Key::IndexValue, encode_opt_text(&self.index_value)));
        fs.push((Key::Language, encode_opt_text(&self.language)));
        fs.push((Key::ClientId, encode_opt_text(&self.client_id)));
        fs.push((Key::RoleId, encode_opt_text(&self.role_id)));
        fs.push((Key::UserId, encode_opt_text(&self.user_id)));
        fs.push((Key::Action, encode_opt_text(&self.action)));
        fs.push((Key::ActionId, encode_opt_i32(&self.action_id)));
        fs.push((Key::ActionUuid, encode_opt_text(&self.action_uuid)));
        fs.push((Key::Window, encode_opt_menu_action(&self.window)));
        fs.push((Key::Process, encode_opt_menu_action(&self.process)));
        fs.push((Key::Form, encode_opt_menu_action(&self.form)));
        fs.push((Key::Browser, encode_opt_menu_action(&self.browser)));
        fs.push((Key::Workflow, encode_opt_menu_action(&self.workflow)));
        proof {
            lemma_fields_of(fs@);
            let target = MenuItem::enc(self.model())->Object_0;
            assert forall|j: int| 0 <= j < fs@.len() implies Value::fields_of(fs@)[j]
                == target[j] by {
                assert(Value::fields_of(fs@)[j] == (fs@[j].0, fs@[j].1.model()));
            }
            assert(Value::fields_of(fs@) =~= target);
        }
        Value::Object(fs)
    }

    /// Decoding of a stored document; inverse of [`MenuItem::encode`] on the
    /// models.
    pub fn decode(v: &Value) -> (r: Option<MenuItem>)
        ensures
            match (r, MenuItem::dec(v.model())) {
                (Option::Some(x), Option::Some(m)) => x.model() == m,
                (Option::None, Option::None) => true,
                _ => false,
            },
    {
        match v {
            Value::Object(fs) => {
                let ghost fsm = Value::fields_of(fs@);
                proof {
                    lemma_fields_of(fs@);
                }
                let mut out = MenuItem::empty();
                let mut i: usize = 0;
                while i < fs.len()
                    invariant
                        0 <= i <= fs@.len(),
                        fsm == Value::fields_of(fs@),
                        fsm.len() == fs@.len(),
                        forall|k: int|
                            0 <= k < fs@.len() ==> fsm[k] == (#[trigger] fs@[k].0, fs@[k].1.model()),
                        MenuItem::fold_fields(MenuItem::empty_model(), fsm, 0)
                            == MenuItem::fold_fields(out.model(), fsm, i as int),
                    decreases fs@.len() - i,
                {
                    let ghost before = out.model();
                    let (k, v) = &fs[i];
                    match k {
                        Key::Uuid => out.uuid = decode_opt_text(v),
                        Key::InternalId => out.internal_id = decode_opt_i32(v),
                        Key::Id => out.id = decode_opt_text(v),
                        Key::ParentId => out.parent_id = decode_opt_i32(v),
                        Key::Sequence => out.sequence = decode_opt_i32(v),
                        Key::Name => out.name = decode_opt_text(v),
                        Key::Description => out.description = decode_opt_text(v),
                        Key::IsSummary => out.is_summary = decode_opt_bool(v),
                        Key::IsSalesTransaction => out.is_sales_transaction = decode_opt_bool(v),
                        Key::IsReadOnly => out.is_read_only = decode_opt_bool(v),
                        Key::IndexValue => out.index_value = decode_opt_text(v),
                        Key::Language => out.language = decode_opt_text(v),
                        Key::ClientId => out.client_id = decode_opt_text(v),
                        Key::RoleId => out.role_id = decode_opt_text(v),
                        Key::UserId => out.user_id = decode_opt_text(v),
                        Key::Action => out.action = decode_opt_text(v),
                        Key::ActionId => out.action_id = decode_opt_i32(v),
                        Key::ActionUuid => out.action_uuid = decode_opt_text(v),
                        Key::Window => out.window = decode_opt_menu_action(v),
                        Key::Process => out.process = decode_opt_menu_action(v),
                        Key::Form => out.form = decode_opt_menu_action(v),
                        Key::Browser => out.browser = decode_opt_menu_action(v),
                        Key::Workflow => out.workflow = decode_opt_menu_action(v),
                        _ => {
                        },
                    }
                    proof {
                        assert(out.model() == MenuItem::apply_field(before, fsm[i as int].0, fsm[i as int].1));
                    }
                    i = i + 1;
                }
                Option::Some(out)
            },
            _ => Option::None,
        }
    }
}

/// The model of an optional menu item record.
pub open spec fn view_opt_menu_item(o: Option<MenuItem>) -> Option<MenuItemModel> {
    match o {
        Option::None => Option::None,
        Option::Some(x) => Option::Some(x.model()),
    }
}

pub open spec fn enc_opt_menu_item(o: Option<MenuItemModel>) -> ValModel {
    match o {
        Option::None => ValModel::Null,
        Option::Some(m) => MenuItem::enc(m),
    }
}

pub fn encode_opt_menu_item(o: &Option<MenuItem>) -> (r: Value)
    ensures
        r.model() == enc_opt_menu_item(view_opt_menu_item(*o)),
{
    match o {
        Option::None => Value::Null,
        Option::Some(x) => x.encode(),
    }
}

pub fn decode_opt_menu_item(v: &Value) -> (r: Option<MenuItem>)
    ensures
        view_opt_menu_item(r) == MenuItem::dec(v.model()),
{
    MenuItem::decode(v)
}

/// Decoding inverts encoding for every menu item record.
#[verifier::rlimit(100)]
pub proof fn lemma_menu_item_round_trip(m: MenuItemModel)
    ensures
        MenuItem::dec(MenuItem::enc(m)) == Option::Some(m),
{
    match m.window {
        Option::Some(a) => lemma_menu_action_round_trip(a),
        Option::None => {
        },
    }
    match m.process {
        Option::Some(a) => lemma_menu_action_round_trip(a),
        Option::None => {
        },
    }
    match m.form {
        Option::Some(a) => lemma_menu_action_round_trip(a),
        Option::None => {
        },
    }
    match m.browser {
        Option::Some(a) => lemma_menu_action_round_trip(a),
        Option::None => {
        },
    }
    match m.workflow {
        Option::Some(a) => lemma_menu_action_round_trip(a),
        Option::None => {
        },
    }
    let fs = MenuItem::enc(m)->Object_0;
    let s0 = MenuItem::empty_model();
    let s1 = MenuItem::apply_field(s0, fs[0].0, fs[0].1);
    let s2 = MenuItem::apply_field(s1, fs[1].0, fs[1].1);
    let s3 = MenuItem::apply_field(s2, fs[2].0, fs[2].1);
    let s4 = MenuItem::apply_field(s3, fs[3].0, fs[3].1);
    let s5 = MenuItem::apply_field(s4, fs[4].0, fs[4].1);
    let s6 = MenuItem::apply_field(s5, fs[5].0, fs[5].1);
    let s7 = MenuItem::apply_field(s6, fs[6].0, fs[6].1);
    let s8 = MenuItem::apply_field(s7, fs[7].0, fs[7].1);
    let s9 = MenuItem::apply_field(s8, fs[8].0, fs[8].1);
    let s10 = MenuItem::apply_field(s9, fs[9].0, fs[9].1);
    let s11 = MenuItem::apply_field(s10, fs[10].0, fs[10].1);
    let s12 = MenuItem::apply_field(s11, fs[11].0, fs[11].1);
    let s13 = MenuItem::apply_field(s12, fs[12].0, fs[12].1);
    let s14 = MenuItem::apply_field(s13, fs[13].0, fs[13].1);
    let s15 = MenuItem::apply_field(s14, fs[14].0, fs[14].1);
    let s16 = MenuItem::apply_field(s15, fs[15].0, fs[15].1);
    let s17 = MenuItem::apply_field(s16, fs[16].0, fs[16].1);
    let s18 = MenuItem::apply_field(s17, fs[17].0, fs[17].1);
    let s19 = MenuItem::apply_field(s18, fs[18].0, fs[18].1);
    let s20 = MenuItem::apply_field(s19, fs[19].0, fs[19].1);
    let s21 = MenuItem::apply_field(s20, fs[20].0, fs[20].1);
    let s22 = MenuItem::apply_field(s21, fs[21].0, fs[21].1);
    let s23 = MenuItem::apply_field(s22, fs[22].0, fs[22].1);
    assert(MenuItem::fold_fields(s23, fs, 23) == s23);
    assert(MenuItem::fold_fields(s22, fs, 22) == s23);
    assert(MenuItem::fold_fields(s21, fs, 21) == s23);
    assert(MenuItem::fold_fields(s20, fs, 20) == s23);
    assert(MenuItem::fold_fields(s19, fs, 19) == s23);
    assert(MenuItem::fold_fields(s18, fs, 18) == s23);
    assert(MenuItem::fold_fields(s17, fs, 17) == s23);
    assert(MenuItem::fold_fields(s16, fs, 16) == s23);
    assert(MenuItem::fold_fields(s15, fs, 15) == s23);
    assert(MenuItem::fold_fields(s14, fs, 14) == s23);
    assert(MenuItem::fold_fields(s13, fs, 13) == s23);
    assert(MenuItem::fold_fields(s12, fs, 12) == s23);
    assert(MenuItem::fold_fields(s11, fs, 11) == s23);
    assert(MenuItem::fold_fields(s10, fs, 10) == s23);
    assert(MenuItem::fold_fields(s9, fs, 9) == s23);
    assert(MenuItem::fold_fields(s8, fs, 8) == s23);
    assert(MenuItem::fold_fields(s7, fs, 7) == s23);
    assert(MenuItem::fold_fields(s6, fs, 6) == s23);
    assert(MenuItem::fold_fields(s5, fs, 5) == s23);
    assert(MenuItem::fold_fields(s4, fs, 4) == s23);
    assert(MenuItem::fold_fields(s3, fs, 3) == s23);
    assert(MenuItem::fold_fields(s2, fs, 2) == s23);
    assert(MenuItem::fold_fields(s1, fs, 1) == s23);
    assert(MenuItem::fold_fields(s0, fs, 0) == s23);
    assert(s23 == m);
}

/// Encoding of a sequence of menu item records.
pub open spec fn enc_menu_items(s: Seq<MenuItemModel>) -> Seq<ValModel>
    decreases s,
{
    if s.len() == 0 {
        Seq::empty()
    } else {
        seq![MenuItem::enc(s[0])] + enc_menu_items(s.drop_first())
    }
}

/// Decoding of a list of menu item records; elements that do not
/// decode are ignored.
pub open spec fn dec_menu_items(items: Seq<ValModel>) -> Seq<MenuItemModel>
    decreases items,
{
    if items.len() == 0 {
        Seq::empty()
    } else {
        match MenuItem::dec(items[0]) {
            Option::Some(m) => seq![m] + dec_menu_items(items.drop_first()),
            Option::None => dec_menu_items(items.drop_first()),
        }
    }
}

pub open spec fn enc_opt_menu_items(o: Option<Seq<MenuItemModel>>) -> ValModel {
    match o {
        Option::None => ValModel::Null,
        Option::Some(s) => ValModel::List(enc_menu_items(s)),
    }
}

pub open spec fn dec_opt_menu_items(v: ValModel) -> Option<Seq<MenuItemModel>> {
    match v {
        ValModel::List(items) => Option::Some(dec_menu_items(items)),
        _ => Option::None,
    }
}

/// The model of an optional vector of menu item records.
pub open spec fn view_opt_menu_items(o: Option<Vec<MenuItem>>) -> Option<Seq<MenuItemModel>> {
    match o {
        Option::None => Option::None,
        Option::Some(v) => Option::Some(Seq::new(v@.len(), |i: int| v@[i].model())),
    }
}

/// `enc_menu_items` indexes point-wise.
pub proof fn lemma_enc_menu_items_index(s: Seq<MenuItemModel>)
    ensures
        enc_menu_items(s).len() == s.len(),
        forall|i: int| 0 <= i < s.len() ==> enc_menu_items(s)[i] == MenuItem::enc(#[trigger] s[i]),
    decreases s,
{
    if s.len() > 0 {
        lemma_enc_menu_items_index(s.drop_first());
        assert forall|i: int| 0 <= i < s.len() implies enc_menu_items(s)[i] == MenuItem::enc(
            #[trigger] s[i],
        ) by {
            if i > 0 {
                assert(s.drop_first()[i - 1] == s[i]);
                assert(enc_menu_items(s)[i] == enc_menu_items(s.drop_first())[i - 1]);
            }
        }
    }
}

/// List decode inverts list encode, element by element.
pub proof fn lemma_menu_items_round_trip(s: Seq<MenuItemModel>)
    ensures
        dec_menu_items(enc_menu_items(s)) == s,
    decreases s,
{
    if s.len() == 0 {
        assert(dec_menu_items(enc_menu_items(s)) =~= s);
    } else {
        lemma_menu_item_round_trip(s[0]);
        lemma_menu_items_round_trip(s.drop_first());
        assert(enc_menu_items(s).drop_first() =~= enc_menu_items(s.drop_first()));
        assert(seq![s[0]] + s.drop_first() =~= s);
    }
}

pub fn encode_opt_menu_items(o: &Option<Vec<MenuItem>>) -> (r: Value)
    ensures
        r.model() == enc_opt_menu_items(view_opt_menu_items(*o)),
{
    match o {
        Option::None => Value::Null,
        Option::Some(v) => {
            let mut out: Vec<Value> = Vec::new();
            let mut i: usize = 0;
            while i < v.len()
                invariant
                    0 <= i <= v@.len(),
                    out@.len() == i,
                    forall|j: int| 0 <= j < i ==> #[trigger] out@[j].model() == MenuItem::enc(v@[j].model()),
                decreases v@.len() - i,
            {
                out.push(v[i].encode());
                i = i + 1;
            }
            proof {
                let vs = view_opt_menu_items(*o)->Some_0;
                lemma_models_of(out@);
                lemma_enc_menu_items_index(vs);
                assert forall|j: int| 0 <= j < out@.len() implies Value::models_of(out@)[j]
                    == enc_menu_items(vs)[j] by {
                    assert(out@[j].model() == MenuItem::enc(v@[j].model()));
                    assert(vs[j] == v@[j].model());
                }
                assert(Value::models_of(out@) =~= enc_menu_items(vs));
            }
            Value::List(out)
        },
    }
}

pub fn decode_opt_menu_items(v: &Value) -> (r: Option<Vec<MenuItem>>)
    ensures
        view_opt_menu_items(r) == dec_opt_menu_items(v.model()),
{
    match v {
        Value::List(items) => {
            let mut out: Vec<MenuItem> = Vec::new();
            let mut i: usize = 0;
            let ghost ms = Value::models_of(items@);
            proof {
                lemma_models_of(items@);
                assert(ms.subrange(0, ms.len() as int) =~= ms);
                assert(Seq::new(0, |j: int| out@[j].model()) + dec_menu_items(ms) =~= dec_menu_items(ms));
            }
            while i < items.len()
                invariant
                    0 <= i <= items@.len(),
                    ms == Value::models_of(items@),
                    ms.len() == items@.len(),
                    forall|k: int| 0 <= k < items@.len() ==> ms[k] == #[trigger] items@[k].model(),
                    dec_menu_items(ms) == Seq::new(out@.len(), |j: int| out@[j].model()) + dec_menu_items(
                        ms.subrange(i as int, ms.len() as int),
                    ),
                decreases items@.len() - i,
            {
                let ghost prev = Seq::new(out@.len(), |j: int| out@[j].model());
                let ghost rest = ms.subrange(i as int, ms.len() as int);
                proof {
                    assert(rest[0] == ms[i as int]);
                    assert(rest.drop_first() =~= ms.subrange(i + 1, ms.len() as int));
                    assert(ms[i as int] == items@[i as int].model());
                }
                match MenuItem::decode(&items[i]) {
                    Option::Some(x) => {
                        out.push(x);
                        proof {
                            assert(Seq::new(out@.len(), |j: int| out@[j].model()) =~= prev
                                + seq![out@[out@.len() - 1].model()]);
                            assert(prev + seq![out@[out@.len() - 1].model()] + dec_menu_items(
                                ms.subrange(i + 1, ms.len() as int),
                            ) =~= prev + (seq![out@[out@.len() - 1].model()] + dec_menu_items(
                                ms.subrange(i + 1, ms.len() as int),
                            )));
                        }
                    },
                    Option::None => {
                    },
                }
                i = i + 1;
            }
            proof {
                assert(ms.subrange(ms.len() as int, ms.len() as int) =~= Seq::<ValModel>::empty());
                assert(dec_menu_items(ms) =~= Seq::new(out@.len(), |j: int| out@[j].model()));
            }
            Option::Some(out)
        },
        _ => Option::None,
    }
}


/// The CDC envelope around one menuitem record.
#[derive(Debug)]
pub struct MenuItemDocument {
    pub document: Option<MenuItem>,
}

/// The response around one record.
#[derive(Debug)]
pub struct MenuItemResponse {
    pub menu: Option<MenuItem>,
}

impl Default for MenuItemResponse {
    fn default() -> (r: Self)
        ensures
            r.menu is None,
    {
        MenuItemResponse { menu: Option::None }
    }
}

/// The response around a list of records.
#[derive(Debug)]
pub struct MenuItemListResponse {
    pub menus: Option<Vec<MenuItem>>,
}

impl MenuItem {
    /// A lookup probe carrying only the id.
    pub fn from_id(id: Option<String>) -> (r: MenuItem)
        ensures
            r.model() == (MenuItemModel { id: crate::text::view_opt(id), ..MenuItem::empty_model() }),
    {
        let mut record = MenuItem::empty();
        record.id = id;
        record
    }
}

impl Default for MenuItem {
    fn default() -> (r: MenuItem)
        ensures
            r.model() == MenuItem::empty_model(),
    {
        MenuItem::empty()
    }
}


/// A single-field object.
fn obj1(k: Key, v: Value) -> (r: Value)
    ensures
        r.model() == ValModel::Object(seq![(k, v.model())]),
{
    let ghost vm = v.model();
    let fields: Vec<(Key, Value)> = vec![(k, v)];
    proof {
        lemma_fields_of(fields@);
        assert(Value::fields_of(fields@) =~= seq![(k, vm)]);
    }
    Value::Object(fields)
}

/// A two-element list.
fn list2(a: Value, b: Value) -> (r: Value)
    ensures
        r.model() == ValModel::List(seq![a.model(), b.model()]),
{
    let ghost am = a.model();
    let ghost bm = b.model();
    let items: Vec<Value> = vec![a, b];
    proof {
        crate::value::lemma_models_of(items@);
        assert(Value::models_of(items@) =~= seq![am, bm]);
    }
    Value::List(items)
}

/// An access list as a list of text values; an absent list reads empty.
pub open spec fn spec_access_values(acc: Option<Seq<Seq<char>>>) -> Seq<ValModel> {
    match acc {
        Option::None => Seq::empty(),
        Option::Some(s) => crate::value::enc_texts(s),
    }
}

fn access_values(access: &Option<Vec<String>>) -> (r: Value)
    ensures
        r.model() == ValModel::List(
            spec_access_values(crate::value::view_opt_texts(*access)),
        ),
{
    match access {
        Option::None => {
            let items: Vec<Value> = Vec::new();
            proof {
                assert(Value::models_of(items@) =~= Seq::<ValModel>::empty());
            }
            Value::List(items)
        },
        Option::Some(v) => {
            let mut items: Vec<Value> = Vec::new();
            let mut i: usize = 0;
            while i < v.len()
                invariant
                    0 <= i <= v@.len(),
                    items@.len() == i,
                    forall|j: int|
                        0 <= j < i ==> #[trigger] items@[j].model() == ValModel::Text(v@[j]@),
                decreases v@.len() - i,
            {
                items.push(Value::Text(v[i].clone()));
                i = i + 1;
            }
            proof {
                let vs = crate::value::view_opt_texts(*access)->Some_0;
                crate::value::lemma_models_of(items@);
                crate::value::lemma_enc_texts_index(vs);
                assert forall|j: int| 0 <= j < items@.len() implies Value::models_of(items@)[j]
                    == crate::value::enc_texts(vs)[j] by {
                    assert(items@[j].model() == ValModel::Text(v@[j]@));
                    assert(vs[j] == v@[j]@);
                }
                assert(Value::models_of(items@) =~= crate::value::enc_texts(vs));
            }
            Value::List(items)
        },
    }
}

/// The clause that admits summary nodes.
pub open spec fn spec_summary_clause() -> ValModel {
    ValModel::Object(
        seq![
            (
                Key::Bool,
                ValModel::Object(
                    seq![
                        (
                            Key::Must,
                            ValModel::List(
                                seq![
                                    ValModel::Object(
                                        seq![
                                            (
                                                Key::Match,
                                                ValModel::Object(
                                                    seq![(Key::IsSummary, ValModel::Bool(true))],
                                                ),
                                            ),
                                        ],
                                    ),
                                ],
                            ),
                        ),
                    ],
                ),
            ),
        ],
    )
}

/// The clause that admits one action kind granted by an access list.
pub open spec fn spec_access_clause(letter: Seq<char>, acc: Option<Seq<Seq<char>>>) -> ValModel {
    ValModel::Object(
        seq![
            (
                Key::Bool,
                ValModel::Object(
                    seq![
                        (
                            Key::Must,
                            ValModel::List(
                                seq![
                                    ValModel::Object(
                                        seq![
                                            (
                                                Key::Terms,
                                                ValModel::Object(
                                                    seq![
                                                        (
                                                            Key::ActionUuid,
                                                            ValModel::List(
                                                                spec_access_values(acc),
                                                            ),
                                                        ),
                                                    ],
                                                ),
                                            ),
                                        ],
                                    ),
                                    ValModel::Object(
                                        seq![
                                            (
                                                Key::Match,
                                                ValModel::Object(
                                                    seq![(Key::Action, ValModel::Text(letter))],
                                                ),
                                            ),
                                        ],
                                    ),
                                ],
                            ),
                        ),
                    ],
                ),
            ),
        ],
    )
}

/// The raw boolean search body a role induces on the menu-item index: a
/// document matches when it is a summary node, or when its action kind is
/// granted by the matching access list.
pub open spec fn spec_role_filter_body(r: crate::role::RoleModel) -> ValModel {
    ValModel::Object(
        seq![
            (
                Key::Query,
                ValModel::Object(
                    seq![
                        (
                            Key::Bool,
                            ValModel::Object(
                                seq![
                                    (
                                        Key::Should,
                                        ValModel::List(
                                            seq![
                                                spec_summary_clause(),
                                                spec_access_clause("W"@, r.window_access),
                                                spec_access_clause("X"@, r.form_access),
                                                spec_access_clause("S"@, r.browser_access),
                                                spec_access_clause("P"@, r.process_access),
                                                spec_access_clause("R"@, r.process_access),
                                                spec_access_clause("F"@, r.workflow_access),
                                            ],
                                        ),
                                    ),
                                ],
                            ),
                        ),
                    ],
                ),
            ),
        ],
    )
}

fn access_clause(letter: &str, access: &Option<Vec<String>>) -> (r: Value)
    ensures
        r.model() == spec_access_clause(letter@, crate::value::view_opt_texts(*access)),
{
    let terms = obj1(Key::Terms, obj1(Key::ActionUuid, access_values(access)));
    let matches = obj1(Key::Match, obj1(Key::Action, Value::Text(letter.to_owned())));
    obj1(Key::Bool, obj1(Key::Must, list2(terms, matches)))
}

impl MenuItem {
    /// The raw boolean search body for the menu items a role may see; the
    /// executable counterpart of [`spec_role_filter_body`].
    pub fn get_find_body_from_role(role: &crate::role::Role) -> (r: Value)
        ensures
            r.model() == spec_role_filter_body(role.model()),
    {
        let inner = obj1(Key::Match, obj1(Key::IsSummary, Value::Bool(true)));
        let ghost im = inner.model();
        let items: Vec<Value> = vec![inner];
        proof {
            crate::value::lemma_models_of(items@);
            assert(Value::models_of(items@) =~= seq![im]);
        }
        let must_list = Value::List(items);
        let summary = obj1(Key::Bool, obj1(Key::Must, must_list));
        let w = access_clause("W", &role.window_access);
        let x = access_clause("X", &role.form_access);
        let s = access_clause("S", &role.browser_access);
        let p = access_clause("P", &role.process_access);
        let rr = access_clause("R", &role.process_access);
        let f = access_clause("F", &role.workflow_access);
        let ghost ms = seq![
            summary.model(),
            w.model(),
            x.model(),
            s.model(),
            p.model(),
            rr.model(),
            f.model(),
        ];
        let should: Vec<Value> = vec![summary, w, x, s, p, rr, f];
        proof {
            crate::value::lemma_models_of(should@);
            assert(Value::models_of(should@) =~= ms);
        }
        obj1(Key::Query, obj1(Key::Bool, obj1(Key::Should, Value::List(should))))
    }
}

} // verus!
