//! The menu-tree entity: the structural hierarchy (parent/child and
//! ordering) a role renders, disjoint from the menu-item pool that carries
//! the presentation data.

use vstd::prelude::*;
use crate::text::view_opt;
use crate::value::dec_opt_i32;
use crate::value::dec_opt_text;
use crate::value::decode_opt_i32;
use crate::value::decode_opt_text;
use crate::value::enc_opt_i32;
use crate::value::enc_opt_text;
use crate::value::encode_opt_i32;
use crate::value::encode_opt_text;
use crate::value::lemma_fields_of;
use crate::value::lemma_models_of;
use crate::value::Key;
use crate::value::ValModel;
use crate::value::Value;

verus! {

/// A node of the structural menu hierarchy; `node_id` links the node to a
/// menu item of the pool, and `children` are ordered sub-nodes.
#[derive(Debug)]
pub struct MenuTree {
    pub uuid: Option<String>,
    pub id: Option<String>,
    pub internal_id: Option<i32>,
    pub node_id: Option<i32>,
    pub parent_id: Option<i32>,
    pub sequence: Option<i32>,
    pub index_value: Option<String>,
    pub language: Option<String>,
    pub client_id: Option<String>,
    pub role_id: Option<String>,
    pub user_id: Option<String>,
    pub children: Option<Vec<MenuTree>>,
}

/// The mathematical model of a [`MenuTree`].
pub struct MenuTreeModel {
    pub uuid: Option<Seq<char>>,
    pub id: Option<Seq<char>>,
    pub internal_id: Option<i32>,
    pub node_id: Option<i32>,
    pub parent_id: Option<i32>,
    pub sequence: Option<i32>,
    pub index_value: Option<Seq<char>>,
    pub language: Option<Seq<char>>,
    pub client_id: Option<Seq<char>>,
    pub role_id: Option<Seq<char>>,
    pub user_id: Option<Seq<char>>,
    pub children: Option<Seq<MenuTreeModel>>,
}

impl MenuTree {
    pub open spec fn model(self) -> MenuTreeModel
        decreases self,
    {
        MenuTreeModel {
            uuid: view_opt(self.uuid),
            id: view_opt(self.id),
            internal_id: self.internal_id,
            node_id: self.node_id,
            parent_id: self.parent_id,
            sequence: self.sequence,
            index_value: view_opt(self.index_value),
            language: view_opt(self.language),
            client_id: view_opt(self.client_id),
            role_id: view_opt(self.role_id),
            user_id: view_opt(self.user_id),
            children: match self.children {
                Option::None => Option::None,
                Option::Some(v) => Option::Some(MenuTree::models_of_vec(v@)),
            },
        }
    }

    /// Models of a sequence of nodes, in order.
    pub open spec fn models_of_vec(s: Seq<MenuTree>) -> Seq<MenuTreeModel>
        decreases s,
    {
        if s.len() == 0 {
            Seq::empty()
        } else {
            seq![s[0].model()] + MenuTree::models_of_vec(s.drop_first())
        }
    }

    pub open spec fn empty_model() -> MenuTreeModel {
        MenuTreeModel {
            uuid: Option::None,
            id: Option::None,
            internal_id: Option::None,
            node_id: Option::None,
            parent_id: Option::None,
            sequence: Option::None,
            index_value: Option::None,
            language: Option::None,
            client_id: Option::None,
            role_id: Option::None,
            user_id: Option::None,
            children: Option::None,
        }
    }

    /// The stored shape: every field present under its key, absent values
    /// as null.
    pub open spec fn enc(m: MenuTreeModel) -> ValModel
        decreases m, 1int,
    {
        ValModel::Object(
            seq![
                (Key::Uuid, enc_opt_text(m.uuid)),
                (Key::Id, enc_opt_text(m.id)),
                (Key::InternalId, enc_opt_i32(m.internal_id)),
                (Key::NodeId, enc_opt_i32(m.node_id)),
                (Key::ParentId, enc_opt_i32(m.parent_id)),
                (Key::Sequence, enc_opt_i32(m.sequence)),
                (Key::IndexValue, enc_opt_text(m.index_value)),
                (Key::Language, enc_opt_text(m.language)),
                (Key::ClientId, enc_opt_text(m.client_id)),
                (Key::RoleId, enc_opt_text(m.role_id)),
                (Key::UserId, enc_opt_text(m.user_id)),
                (
                    Key::Children,
                    match m.children {
                        Option::None => ValModel::Null,
                        Option::Some(s) => ValModel::List(MenuTree::enc_list(s)),
                    },
                ),
            ],
        )
    }

    pub open spec fn enc_list(s: Seq<MenuTreeModel>) -> Seq<ValModel>
        decreases s, 0int,
    {
        if s.len() == 0 {
            Seq::empty()
        } else {
            seq![MenuTree::enc(s[0])] + MenuTree::enc_list(s.drop_first())
        }
    }

    /// One decoding step: a recognized key sets its field; unknown keys are
    /// ignored.
    pub open spec fn apply_field(m: MenuTreeModel, k: Key, v: ValModel) -> MenuTreeModel
        decreases v, 1int,
    {
        match k {
            Key::Uuid => MenuTreeModel { uuid: dec_opt_text(v), ..m },
            Key::Id => MenuTreeModel { id: dec_opt_text(v), ..m },
            Key::InternalId => MenuTreeModel { internal_id: dec_opt_i32(v), ..m },
            Key::NodeId => MenuTreeModel { node_id: dec_opt_i32(v), ..m },
            Key::ParentId => MenuTreeModel { parent_id: dec_opt_i32(v), ..m },
            Key::Sequence => MenuTreeModel { sequence: dec_opt_i32(v), ..m },
            Key::IndexValue => MenuTreeModel { index_value: dec_opt_text(v), ..m },
            Key::Language => MenuTreeModel { language: dec_opt_text(v), ..m },
            Key::ClientId => MenuTreeModel { client_id: dec_opt_text(v), ..m },
            Key::RoleId => MenuTreeModel { role_id: dec_opt_text(v), ..m },
            Key::UserId => MenuTreeModel { user_id: dec_opt_text(v), ..m },
            Key::Children => MenuTreeModel {
                children: match v {
                    ValModel::List(items) => Option::Some(MenuTree::dec_list(items)),
                    _ => Option::None,
                },
                ..m
            },
            _ => m,
        }
    }

    pub open spec fn fold_fields(m: MenuTreeModel, fs: Seq<(Key, ValModel)>, i: int) -> MenuTreeModel
        decreases fs, fs.len() - i,
    {
        if i < 0 || i >= fs.len() {
            m
        } else {
            MenuTree::fold_fields(MenuTree::apply_field(m, fs[i].0, fs[i].1), fs, i + 1)
        }
    }

    /// Decoding of a stored document into a model; only objects decode.
    pub open spec fn dec(v: ValModel) -> Option<MenuTreeModel>
        decreases v, 2int,
    {
        match v {
            ValModel::Object(fs) => Option::Some(
                MenuTree::fold_fields(MenuTree::empty_model(), fs, 0),
            ),
            _ => Option::None,
        }
    }

    pub open spec fn dec_list(items: Seq<ValModel>) -> Seq<MenuTreeModel>
        decreases items, 0int,
    {
        if items.len() == 0 {
            Seq::empty()
        } else {
            match MenuTree::dec(items[0]) {
                Option::Some(m) => seq![m] + MenuTree::dec_list(items.drop_first()),
                Option::None => MenuTree::dec_list(items.drop_first()),
            }
        }
    }

    pub fn empty() -> (r: MenuTree)
        ensures
            r.model() == MenuTree::empty_model(),
    {
        MenuTree {
            uuid: Option::None,
            id: Option::None,
            internal_id: Option::None,
            node_id: Option::None,
            parent_id: Option::None,
            sequence: Option::None,
            index_value: Option::None,
            language: Option::None,
            client_id: Option::None,
            role_id: Option::None,
            user_id: Option::None,
            children: Option::None,
        }
    }

    /// The stored payload of this record.
    pub fn encode(&self) -> (r: Value)
        ensures
            r.model() == MenuTree::enc(self.model()),
        decreases *self,
    {
        let children_value: Value = match &self.children {
            Option::None => Value::Null,
            Option::Some(v) => {
                proof {
                    assert(decreases_to!(*self => self.children));
                    assert(decreases_to!(self.children => *v));
                    assert(decreases_to!(*v => v@));
                }
                Value::List(MenuTree::encode_forest(v))
            },
        };
        let mut fs: Vec<(Key, Value)> = Vec::new();
        fs.push((Key::Uuid, encode_opt_text(&self.uuid)));
        fs.push((Key::Id, encode_opt_text(&self.id)));
        fs.push((Key::InternalId, encode_opt_i32(&self.internal_id)));
        fs.push((Key::NodeId, encode_opt_i32(&self.node_id)));
        fs.push((Key::ParentId, encode_opt_i32(&self.parent_id)));
        fs.push((Key::Sequence, encode_opt_i32(&self.sequence)));
        fs.push((Key::IndexValue, encode_opt_text(&self.index_value)));
        fs.push((Key::Language, encode_opt_text(&self.language)));
        fs.push((Key::ClientId, encode_opt_text(&self.client_id)));
        fs.push((Key::RoleId, encode_opt_text(&self.role_id)));
        fs.push((Key::UserId, encode_opt_text(&self.user_id)));
        fs.push((Key::Children, children_value));
        proof {
            lemma_fields_of(fs@);
            let target = MenuTree::enc(self.model())->Object_0;
            assert forall|j: int| 0 <= j < fs@.len() implies Value::fields_of(fs@)[j]
                == target[j] by {
                assert(Value::fields_of(fs@)[j] == (fs@[j].0, fs@[j].1.model()));
            }
            assert(Value::fields_of(fs@) =~= target);
        }
        Value::Object(fs)
    }

    /// Encoding of a vector of nodes, in order.
    pub fn encode_forest(v: &Vec<MenuTree>) -> (r: Vec<Value>)
        ensures
            Value::models_of(r@) == MenuTree::enc_list(MenuTree::models_of_vec(v@)),
        decreases v@,
    {
        let mut out: Vec<Value> = Vec::new();
        let mut i: usize = 0;
        while i < v.len()
            invariant
                0 <= i <= v@.len(),
                out@.len() == i,
                forall|j: int|
                    0 <= j < i ==> #[trigger] out@[j].model() == MenuTree::enc(v@[j].model()),
            decreases v@.len() - i,
        {
            proof {
                assert(decreases_to!(v@ => v@[i as int]));
            }
            let e = v[i].encode();
            out.push(e);
            i = i + 1;
        }
        proof {
            lemma_models_of(out@);
            lemma_menu_tree_models_of_vec(v@);
            lemma_menu_tree_enc_list_index(MenuTree::models_of_vec(v@));
            assert forall|j: int| 0 <= j < out@.len() implies Value::models_of(out@)[j]
                == MenuTree::enc_list(MenuTree::models_of_vec(v@))[j] by {
                assert(out@[j].model() == MenuTree::enc(v@[j].model()));
                assert(MenuTree::models_of_vec(v@)[j] == v@[j].model());
            }
            assert(Value::models_of(out@) =~= MenuTree::enc_list(MenuTree::models_of_vec(v@)));
        }
        out
    }

    /// Decoding of a stored document; inverse of [`MenuTree::encode`] on
    /// the models.
    #[verifier::loop_isolation(false)]
    pub fn decode(v: &Value) -> (r: Option<MenuTree>)
        ensures
            match (r, MenuTree::dec(v.model())) {
                (Option::Some(x), Option::Some(m)) => x.model() == m,
                (Option::None, Option::None) => true,
                _ => false,
            },
        decreases *v,
    {
        match v {
            Value::Object(fs) => {
                let ghost fsm = Value::fields_of(fs@);
                proof {
                    lemma_fields_of(fs@);
                }
                let mut out = MenuTree::empty();
                let mut i: usize = 0;
                while i < fs.len()
                    invariant
                        0 <= i <= fs@.len(),
                        fsm == Value::fields_of(fs@),
                        fsm.len() == fs@.len(),
                        forall|k: int|
                            0 <= k < fs@.len() ==> fsm[k] == (#[trigger] fs@[k].0, fs@[k].1.model()),
                        MenuTree::fold_fields(MenuTree::empty_model(), fsm, 0)
                            == MenuTree::fold_fields(out.model(), fsm, i as int),
                    decreases fs@.len() - i,
                {
                    let ghost before = out.model();
                    proof {
                        assert(decreases_to!(*v => v->Object_0));
                        assert(decreases_to!(v->Object_0 => fs@));
                        assert(decreases_to!(fs@ => fs@[i as int]));
                        assert(decreases_to!(fs@[i as int] => fs@[i as int].1));
                    }
                    let (k, w) = &fs[i];
                    match k {
                        Key::Uuid => out.uuid = decode_opt_text(w),
                        Key::Id => out.id = decode_opt_text(w),
                        Key::InternalId => out.internal_id = decode_opt_i32(w),
                        Key::NodeId => out.node_id = decode_opt_i32(w),
                        Key::ParentId => out.parent_id = decode_opt_i32(w),
                        Key::Sequence => out.sequence = decode_opt_i32(w),
                        Key::IndexValue => out.index_value = decode_opt_text(w),
                        Key::Language => out.language = decode_opt_text(w),
                        Key::ClientId => out.client_id = decode_opt_text(w),
                        Key::RoleId => out.role_id = decode_opt_text(w),
                        Key::UserId => out.user_id = decode_opt_text(w),
                        Key::Children => {
                            match w {
                                Value::List(items) => {
                                    proof {
                                        assert(*w == fs@[i as int].1);
                                        assert(decreases_to!(*w => w->List_0));
                                        assert(decreases_to!(w->List_0 => items@));
                                    }
                                    out.children = Option::Some(MenuTree::decode_forest(items));
                                },
                                _ => {
                                    out.children = Option::None;
                                },
                            }
                        },
                        _ => {
                        },
                    }
                    proof {
                        assert(out.model() == MenuTree::apply_field(
                            before,
                            fsm[i as int].0,
                            fsm[i as int].1,
                        ));
                    }
                    i = i + 1;
                }
                Option::Some(out)
            },
            _ => Option::None,
        }
    }

    /// Decoding of a list of nodes; elements that do not decode are
    /// ignored.
    pub fn decode_forest(items: &Vec<Value>) -> (r: Vec<MenuTree>)
        ensures
            MenuTree::models_of_vec(r@) == MenuTree::dec_list(Value::models_of(items@)),
        decreases items@,
    {
        let mut out: Vec<MenuTree> = Vec::new();
        let mut i: usize = 0;
        let ghost ms = Value::models_of(items@);
        proof {
            lemma_models_of(items@);
            lemma_menu_tree_models_of_vec(out@);
            assert(ms.subrange(0, ms.len() as int) =~= ms);
            assert(MenuTree::models_of_vec(out@) + MenuTree::dec_list(ms) =~= MenuTree::dec_list(
                ms,
            ));
        }
        while i < items.len()
            invariant
                0 <= i <= items@.len(),
                ms == Value::models_of(items@),
                ms.len() == items@.len(),
                forall|k: int| 0 <= k < items@.len() ==> ms[k] == #[trigger] items@[k].model(),
                MenuTree::dec_list(ms) == MenuTree::models_of_vec(out@) + MenuTree::dec_list(
                    ms.subrange(i as int, ms.len() as int),
                ),
            decreases items@.len() - i,
        {
            let ghost prev = MenuTree::models_of_vec(out@);
            let ghost rest = ms.subrange(i as int, ms.len() as int);
            proof {
                assert(rest[0] == ms[i as int]);
                assert(rest.drop_first() =~= ms.subrange(i + 1, ms.len() as int));
                assert(ms[i as int] == items@[i as int].model());
                assert(decreases_to!(items@ => items@[i as int]));
            }
            match MenuTree::decode(&items[i]) {
                Option::Some(x) => {
                    let ghost old_out = out@;
                    out.push(x);
                    proof {
                        lemma_menu_tree_models_of_vec(out@);
                        lemma_menu_tree_models_of_vec(old_out);
                        assert(prev == MenuTree::models_of_vec(old_out));
                        assert forall|j: int| 0 <= j < out@.len() implies MenuTree::models_of_vec(
                            out@,
                        )[j] == (prev + seq![out@[out@.len() - 1].model()])[j] by {
                            assert(MenuTree::models_of_vec(out@)[j] == out@[j].model());
                            if j < out@.len() - 1 {
                                assert(old_out[j] == out@[j]);
                                assert(prev[j] == old_out[j].model());
                            }
                        }
                        assert(MenuTree::models_of_vec(out@) =~= prev + seq![
                            out@[out@.len() - 1].model(),
                        ]);
                        assert(prev + seq![out@[out@.len() - 1].model()] + MenuTree::dec_list(
                            ms.subrange(i + 1, ms.len() as int),
                        ) =~= prev + (seq![out@[out@.len() - 1].model()] + MenuTree::dec_list(
                            ms.subrange(i + 1, ms.len() as int),
                        )));
                    }
                },
                Option::None => {
                },
            }
            i = i + 1;
        }
        proof {
            assert(ms.subrange(ms.len() as int, ms.len() as int) =~= Seq::<ValModel>::empty());
            assert(MenuTree::dec_list(ms) =~= MenuTree::models_of_vec(out@));
        }
        out
    }
}

/// The node models index point-wise into the vector of nodes.
pub proof fn lemma_menu_tree_models_of_vec(s: Seq<MenuTree>)
    ensures
        MenuTree::models_of_vec(s).len() == s.len(),
        forall|i: int|
            0 <= i < s.len() ==> MenuTree::models_of_vec(s)[i] == #[trigger] s[i].model(),
    decreases s,
{
    if s.len() > 0 {
        lemma_menu_tree_models_of_vec(s.drop_first());
        assert forall|i: int|
            0 <= i < s.len() implies MenuTree::models_of_vec(s)[i] == #[trigger] s[i].model() by {
            if i > 0 {
                assert(s.drop_first()[i - 1] == s[i]);
                assert(MenuTree::models_of_vec(s)[i] == MenuTree::models_of_vec(s.drop_first())[i
                    - 1]);
            }
        }
    }
}

/// `MenuTree::enc_list` indexes point-wise.
pub proof fn lemma_menu_tree_enc_list_index(s: Seq<MenuTreeModel>)
    ensures
        MenuTree::enc_list(s).len() == s.len(),
        forall|i: int| 0 <= i < s.len() ==> MenuTree::enc_list(s)[i] == MenuTree::enc(#[trigger] s[i]),
    decreases s,
{
    if s.len() > 0 {
        lemma_menu_tree_enc_list_index(s.drop_first());
        assert forall|i: int|
            0 <= i < s.len() implies MenuTree::enc_list(s)[i] == MenuTree::enc(#[trigger] s[i]) by {
            if i > 0 {
                assert(s.drop_first()[i - 1] == s[i]);
                assert(MenuTree::enc_list(s)[i] == MenuTree::enc_list(s.drop_first())[i - 1]);
            }
        }
    }
}

/// Decoding inverts encoding for every menu-tree node.
#[verifier::rlimit(100)]
pub proof fn lemma_menu_tree_round_trip(m: MenuTreeModel)
    ensures
        MenuTree::dec(MenuTree::enc(m)) == Option::Some(m),
    decreases m, 1int,
{
    match m.children {
        Option::Some(s) => {
            lemma_menu_tree_list_round_trip(s);
        },
        Option::None => {
        },
    }
    let fs = MenuTree::enc(m)->Object_0;
    let s0 = MenuTree::empty_model();
    let s1 = MenuTree::apply_field(s0, fs[0].0, fs[0].1);
    let s2 = MenuTree::apply_field(s1, fs[1].0, fs[1].1);
    let s3 = MenuTree::apply_field(s2, fs[2].0, fs[2].1);
    let s4 = MenuTree::apply_field(s3, fs[3].0, fs[3].1);
    let s5 = MenuTree::apply_field(s4, fs[4].0, fs[4].1);
    let s6 = MenuTree::apply_field(s5, fs[5].0, fs[5].1);
    let s7 = MenuTree::apply_field(s6, fs[6].0, fs[6].1);
    let s8 = MenuTree::apply_field(s7, fs[7].0, fs[7].1);
    let s9 = MenuTree::apply_field(s8, fs[8].0, fs[8].1);
    let s10 = MenuTree::apply_field(s9, fs[9].0, fs[9].1);
    let s11 = MenuTree::apply_field(s10, fs[10].0, fs[10].1);
    let s12 = MenuTree::apply_field(s11, fs[11].0, fs[11].1);
    assert(MenuTree::fold_fields(s12, fs, 12) == s12);
    assert(MenuTree::fold_fields(s11, fs, 11) == s12);
    assert(MenuTree::fold_fields(s10, fs, 10) == s12);
    assert(MenuTree::fold_fields(s9, fs, 9) == s12);
    assert(MenuTree::fold_fields(s8, fs, 8) == s12);
    assert(MenuTree::fold_fields(s7, fs, 7) == s12);
    assert(MenuTree::fold_fields(s6, fs, 6) == s12);
    assert(MenuTree::fold_fields(s5, fs, 5) == s12);
    assert(MenuTree::fold_fields(s4, fs, 4) == s12);
    assert(MenuTree::fold_fields(s3, fs, 3) == s12);
    assert(MenuTree::fold_fields(s2, fs, 2) == s12);
    assert(MenuTree::fold_fields(s1, fs, 1) == s12);
    assert(MenuTree::fold_fields(s0, fs, 0) == s12);
    assert(s12 == m);
}

/// List decode inverts list encode, node by node.
pub proof fn lemma_menu_tree_list_round_trip(s: Seq<MenuTreeModel>)
    ensures
        MenuTree::dec_list(MenuTree::enc_list(s)) == s,
    decreases s, 0int,
{
    if s.len() == 0 {
        assert(MenuTree::dec_list(MenuTree::enc_list(s)) =~= s);
    } else {
        lemma_menu_tree_round_trip(s[0]);
        lemma_menu_tree_list_round_trip(s.drop_first());
        assert(MenuTree::enc_list(s).drop_first() =~= MenuTree::enc_list(s.drop_first()));
        assert(seq![s[0]] + s.drop_first() =~= s);
    }
}

/// The CDC envelope around one menutree record.
#[derive(Debug)]
pub struct MenuTreeDocument {
    pub document: Option<MenuTree>,
}

/// The response around one record.
#[derive(Debug)]
pub struct MenuTreeResponse {
    pub menu: Option<MenuTree>,
}

impl Default for MenuTreeResponse {
    fn default() -> (r: Self)
        ensures
            r.menu is None,
    {
        MenuTreeResponse { menu: Option::None }
    }
}

/// The response around a list of records.
#[derive(Debug)]
pub struct MenuTreeListResponse {
    pub menus: Option<Vec<MenuTree>>,
}

impl MenuTree {
    /// A lookup probe carrying only the id.
    pub fn from_id(id: Option<String>) -> (r: MenuTree)
        ensures
            r.model() == (MenuTreeModel { id: crate::text::view_opt(id), ..MenuTree::empty_model() }),
    {
        let mut record = MenuTree::empty();
        record.id = id;
        record
    }
}

impl MenuTree {
    /// A short description of the record for diagnostics.
    pub fn to_string(&self) -> (r: String)
        ensures
            r@ == "Menu Tree UUID "@ + (match self.uuid {
                Option::Some(u) => u@,
                Option::None => Seq::empty(),
            }) + " Index "@ + (match self.index_value {
                Option::Some(v) => v@,
                Option::None => Seq::empty(),
            }),
    {
        let mut out = "Menu Tree UUID ".to_owned();
        match &self.uuid {
            Option::Some(u) => out.append(u.as_str()),
            Option::None => {
            },
        }
        out.append(" Index ");
        match &self.index_value {
            Option::Some(v) => out.append(v.as_str()),
            Option::None => {
            },
        }
        out
    }
}

impl Default for MenuTree {
    fn default() -> (r: MenuTree)
        ensures
            r.model() == MenuTree::empty_model(),
    {
        MenuTree::empty()
    }
}

} // verus!
