//! The uniform projection contract every stored entity implements: its
//! index mapping, its payload, its stable id, its target index name, and
//! its wildcard search query.

use vstd::prelude::*;
use crate::browser::Browser;
use crate::form::Form;
use crate::generic::Generic;
use crate::menu_item::MenuItem;
use crate::menu_tree::MenuTree;
use crate::process::Process;
use crate::role::Role;
use crate::text::view_opt;
use crate::value::Key;
use crate::value::ValModel;
use crate::value::Value;
use crate::value::lemma_fields_of;
use crate::window::Window;

verus! {

/// The projection contract: the pipeline and the query services speak to
/// every entity kind through these five operations.
pub trait IndexDocument {
    /// The field-type schema used when the index is first created.
    spec fn spec_mapping(&self) -> ValModel;

    /// The stored payload.
    spec fn spec_data(&self) -> ValModel;

    /// Whether this record carries the id its `id()` accessor promises.
    spec fn id_ready(&self) -> bool;

    /// The stable document id; records without one read as empty.
    spec fn spec_id(&self) -> Seq<char>;

    /// The target index name: the injected audience index, or the kind's
    /// default.
    spec fn spec_index(&self) -> Seq<char>;

    fn mapping(&self) -> (r: Value)
        ensures
            r.model() == self.spec_mapping(),
    ;

    fn data(&self) -> (r: Value)
        ensures
            r.model() == self.spec_data(),
    ;

    fn id(&self) -> (r: String)
        requires
            self.id_ready(),
        ensures
            r@ == self.spec_id(),
    ;

    fn index_name(&self) -> (r: String)
        ensures
            r@ == self.spec_index(),
    ;

    fn find(&self, search_value: String) -> (r: Value)
        ensures
            r.model() == spec_wildcard_query(search_value@),
    ;
}

/// The wildcard search body: a query-string query for `*term*`.
pub open spec fn spec_wildcard_query(term: Seq<char>) -> ValModel {
    ValModel::Object(
        seq![
            (
                Key::Query,
                ValModel::Object(
                    seq![
                        (
                            Key::QueryString,
                            ValModel::Object(
                                seq![(Key::Query, ValModel::Text(seq!['*'] + term + seq!['*']))],
                            ),
                        ),
                    ],
                ),
            ),
        ],
    )
}

/// Builds the wildcard search body for a term.
pub fn wildcard_query(search_value: String) -> (r: Value)
    ensures
        r.model() == spec_wildcard_query(search_value@),
{
    let mut query = "*".to_owned();
    query.append(search_value.as_str());
    query.append("*");
    proof {
        assert(query@ == seq!['*'] + search_value@ + seq!['*']) by {
            reveal_strlit("*");
            assert("*"@ =~= seq!['*']);
        }
    }
    let inner: Vec<(Key, Value)> = vec![(Key::Query, Value::Text(query))];
    proof {
        lemma_fields_of(inner@);
        assert(Value::fields_of(inner@) =~= (spec_wildcard_query(
            search_value@,
        )->Object_0)[0].1->Object_0[0].1->Object_0);
    }
    let mid: Vec<(Key, Value)> = vec![(Key::QueryString, Value::Object(inner))];
    proof {
        lemma_fields_of(mid@);
        assert(Value::fields_of(mid@) =~= (spec_wildcard_query(
            search_value@,
        )->Object_0)[0].1->Object_0);
    }
    let outer: Vec<(Key, Value)> = vec![(Key::Query, Value::Object(mid))];
    proof {
        lemma_fields_of(outer@);
        assert(Value::fields_of(outer@) =~= spec_wildcard_query(search_value@)->Object_0);
    }
    Value::Object(outer)
}

/// One `{ "type": ... }` row of an index mapping.
pub open spec fn spec_type_entry(t: Seq<char>) -> ValModel {
    ValModel::Object(seq![(Key::Type, ValModel::Text(t))])
}

fn type_entry(t: &str) -> (r: Value)
    ensures
        r.model() == spec_type_entry(t@),
{
    let row: Vec<(Key, Value)> = vec![(Key::Type, Value::Text(t.to_owned()))];
    proof {
        lemma_fields_of(row@);
        assert(Value::fields_of(row@) =~= spec_type_entry(t@)->Object_0);
    }
    Value::Object(row)
}

/// An index mapping around a list of property rows.
pub open spec fn spec_mapping_of(props: Seq<(Key, ValModel)>) -> ValModel {
    ValModel::Object(
        seq![(Key::Mappings, ValModel::Object(seq![(Key::Properties, ValModel::Object(props))]))],
    )
}

fn mapping_of(props: Vec<(Key, Value)>) -> (r: Value)
    ensures
        r.model() == spec_mapping_of(Value::fields_of(props@)),
{
    let ghost pm = Value::fields_of(props@);
    let mid: Vec<(Key, Value)> = vec![(Key::Properties, Value::Object(props))];
    proof {
        lemma_fields_of(mid@);
        assert(Value::fields_of(mid@) =~= seq![(Key::Properties, ValModel::Object(pm))]);
    }
    let outer: Vec<(Key, Value)> = vec![(Key::Mappings, Value::Object(mid))];
    proof {
        lemma_fields_of(outer@);
        assert(Value::fields_of(outer@) =~= spec_mapping_of(pm)->Object_0);
    }
    Value::Object(outer)
}

impl IndexDocument for MenuItem {
    open spec fn spec_mapping(&self) -> ValModel {
        spec_mapping_of(seq![(Key::Uuid, spec_type_entry("text"@)), (Key::Id, spec_type_entry("text"@)), (Key::ParentId, spec_type_entry("integer"@)), (Key::Sequence, spec_type_entry("integer"@)), (Key::Name, spec_type_entry("text"@)), (Key::Description, spec_type_entry("text"@))])
    }

    open spec fn spec_data(&self) -> ValModel {
        MenuItem::enc(self.model())
    }

    open spec fn id_ready(&self) -> bool {
        self.id is Some
    }

    open spec fn spec_id(&self) -> Seq<char> {
        match self.id {
            Option::Some(s) => s@,
            Option::None => Seq::empty(),
        }
    }

    open spec fn spec_index(&self) -> Seq<char> {
        match self.index_value {
            Option::Some(v) => v@,
            Option::None => "menu"@,
        }
    }

    fn mapping(&self) -> (r: Value) {
        let mut props: Vec<(Key, Value)> = Vec::new();
        props.push((Key::Uuid, type_entry("text")));
        props.push((Key::Id, type_entry("text")));
        props.push((Key::ParentId, type_entry("integer")));
        props.push((Key::Sequence, type_entry("integer")));
        props.push((Key::Name, type_entry("text")));
        props.push((Key::Description, type_entry("text")));
        proof {
            lemma_fields_of(props@);
            let target = seq![(Key::Uuid, spec_type_entry("text"@)), (Key::Id, spec_type_entry("text"@)), (Key::ParentId, spec_type_entry("integer"@)), (Key::Sequence, spec_type_entry("integer"@)), (Key::Name, spec_type_entry("text"@)), (Key::Description, spec_type_entry("text"@))];
            assert forall|j: int| 0 <= j < props@.len() implies Value::fields_of(props@)[j]
                == target[j] by {
                assert(Value::fields_of(props@)[j] == (props@[j].0, props@[j].1.model()));
            }
            assert(Value::fields_of(props@) =~= target);
        }
        mapping_of(props)
    }

    fn data(&self) -> (r: Value) {
        self.encode()
    }

    fn id(&self) -> (r: String) {
        match &self.id {
            Option::Some(s) => s.clone(),
            Option::None => "".to_owned(),
        }
    }

    fn index_name(&self) -> (r: String) {
        match &self.index_value {
            Option::Some(value) => value.clone(),
            Option::None => "menu".to_owned(),
        }
    }

    fn find(&self, search_value: String) -> (r: Value) {
        wildcard_query(search_value)
    }
}

impl IndexDocument for MenuTree {
    open spec fn spec_mapping(&self) -> ValModel {
        spec_mapping_of(seq![(Key::Uuid, spec_type_entry("keyword"@)), (Key::Id, spec_type_entry("keyword"@)), (Key::InternalId, spec_type_entry("integer"@)), (Key::ParentId, spec_type_entry("integer"@)), (Key::Sequence, spec_type_entry("integer"@))])
    }

    open spec fn spec_data(&self) -> ValModel {
        MenuTree::enc(self.model())
    }

    open spec fn id_ready(&self) -> bool {
        true
    }

    open spec fn spec_id(&self) -> Seq<char> {
        match self.id {
            Option::Some(s) => s@,
            Option::None => Seq::empty(),
        }
    }

    open spec fn spec_index(&self) -> Seq<char> {
        match self.index_value {
            Option::Some(v) => v@,
            Option::None => "menu"@,
        }
    }

    fn mapping(&self) -> (r: Value) {
        let mut props: Vec<(Key, Value)> = Vec::new();
        props.push((Key::Uuid, type_entry("keyword")));
        props.push((Key::Id, type_entry("keyword")));
        props.push((Key::InternalId, type_entry("integer")));
        props.push((Key::ParentId, type_entry("integer")));
        props.push((Key::Sequence, type_entry("integer")));
        proof {
            lemma_fields_of(props@);
            let target = seq![(Key::Uuid, spec_type_entry("keyword"@)), (Key::Id, spec_type_entry("keyword"@)), (Key::InternalId, spec_type_entry("integer"@)), (Key::ParentId, spec_type_entry("integer"@)), (Key::Sequence, spec_type_entry("integer"@))];
            assert forall|j: int| 0 <= j < props@.len() implies Value::fields_of(props@)[j]
                == target[j] by {
                assert(Value::fields_of(props@)[j] == (props@[j].0, props@[j].1.model()));
            }
            assert(Value::fields_of(props@) =~= target);
        }
        mapping_of(props)
    }

    fn data(&self) -> (r: Value) {
        self.encode()
    }

    fn id(&self) -> (r: String) {
        match &self.id {
            Option::Some(s) => s.clone(),
            Option::None => {
                let r = String::new();
                r
            },
        }
    }

    fn index_name(&self) -> (r: String) {
        match &self.index_value {
            Option::Some(value) => value.clone(),
            Option::None => "menu".to_owned(),
        }
    }

    fn find(&self, search_value: String) -> (r: Value) {
        wildcard_query(search_value)
    }
}

impl IndexDocument for Role {
    open spec fn spec_mapping(&self) -> ValModel {
        spec_mapping_of(seq![(Key::Uuid, spec_type_entry("keyword"@)), (Key::Id, spec_type_entry("keyword"@)), (Key::InternalId, spec_type_entry("integer"@)), (Key::TreeId, spec_type_entry("integer"@)), (Key::Name, spec_type_entry("text"@)), (Key::Description, spec_type_entry("text"@))])
    }

    open spec fn spec_data(&self) -> ValModel {
        Role::enc(self.model())
    }

    open spec fn id_ready(&self) -> bool {
        true
    }

    open spec fn spec_id(&self) -> Seq<char> {
        match self.id {
            Option::Some(s) => s@,
            Option::None => Seq::empty(),
        }
    }

    open spec fn spec_index(&self) -> Seq<char> {
        match self.index_value {
            Option::Some(v) => v@,
            Option::None => "menu"@,
        }
    }

    fn mapping(&self) -> (r: Value) {
        let mut props: Vec<(Key, Value)> = Vec::new();
        props.push((Key::Uuid, type_entry("keyword")));
        props.push((Key::Id, type_entry("keyword")));
        props.push((Key::InternalId, type_entry("integer")));
        props.push((Key::TreeId, type_entry("integer")));
        props.push((Key::Name, type_entry("text")));
        props.push((Key::Description, type_entry("text")));
        proof {
            lemma_fields_of(props@);
            let target = seq![(Key::Uuid, spec_type_entry("keyword"@)), (Key::Id, spec_type_entry("keyword"@)), (Key::InternalId, spec_type_entry("integer"@)), (Key::TreeId, spec_type_entry("integer"@)), (Key::Name, spec_type_entry("text"@)), (Key::Description, spec_type_entry("text"@))];
            assert forall|j: int| 0 <= j < props@.len() implies Value::fields_of(props@)[j]
                == target[j] by {
                assert(Value::fields_of(props@)[j] == (props@[j].0, props@[j].1.model()));
            }
            assert(Value::fields_of(props@) =~= target);
        }
        mapping_of(props)
    }

    fn data(&self) -> (r: Value) {
        self.encode()
    }

    fn id(&self) -> (r: String) {
        match &self.id {
            Option::Some(s) => s.clone(),
            Option::None => {
                let r = String::new();
                r
            },
        }
    }

    fn index_name(&self) -> (r: String) {
        match &self.index_value {
            Option::Some(value) => value.clone(),
            Option::None => "menu".to_owned(),
        }
    }

    fn find(&self, search_value: String) -> (r: Value) {
        wildcard_query(search_value)
    }
}

impl IndexDocument for Window {
    open spec fn spec_mapping(&self) -> ValModel {
        spec_mapping_of(seq![(Key::Uuid, spec_type_entry("keyword"@)), (Key::Id, spec_type_entry("keyword"@)), (Key::InternalId, spec_type_entry("integer"@)), (Key::Name, spec_type_entry("text"@)), (Key::Description, spec_type_entry("text"@)), (Key::Help, spec_type_entry("text"@))])
    }

    open spec fn spec_data(&self) -> ValModel {
        Window::enc(self.model())
    }

    open spec fn id_ready(&self) -> bool {
        true
    }

    open spec fn spec_id(&self) -> Seq<char> {
        match self.id {
            Option::Some(s) => s@,
            Option::None => Seq::empty(),
        }
    }

    open spec fn spec_index(&self) -> Seq<char> {
        match self.index_value {
            Option::Some(v) => v@,
            Option::None => "window"@,
        }
    }

    fn mapping(&self) -> (r: Value) {
        let mut props: Vec<(Key, Value)> = Vec::new();
        props.push((Key::Uuid, type_entry("keyword")));
        props.push((Key::Id, type_entry("keyword")));
        props.push((Key::InternalId, type_entry("integer")));
        props.push((Key::Name, type_entry("text")));
        props.push((Key::Description, type_entry("text")));
        props.push((Key::Help, type_entry("text")));
        proof {
            lemma_fields_of(props@);
            let target = seq![(Key::Uuid, spec_type_entry("keyword"@)), (Key::Id, spec_type_entry("keyword"@)), (Key::InternalId, spec_type_entry("integer"@)), (Key::Name, spec_type_entry("text"@)), (Key::Description, spec_type_entry("text"@)), (Key::Help, spec_type_entry("text"@))];
            assert forall|j: int| 0 <= j < props@.len() implies Value::fields_of(props@)[j]
                == target[j] by {
                assert(Value::fields_of(props@)[j] == (props@[j].0, props@[j].1.model()));
            }
            assert(Value::fields_of(props@) =~= target);
        }
        mapping_of(props)
    }

    fn data(&self) -> (r: Value) {
        self.encode()
    }

    fn id(&self) -> (r: String) {
        match &self.id {
            Option::Some(s) => s.clone(),
            Option::None => {
                let r = String::new();
                r
            },
        }
    }

    fn index_name(&self) -> (r: String) {
        match &self.index_value {
            Option::Some(value) => value.clone(),
            Option::None => "window".to_owned(),
        }
    }

    fn find(&self, search_value: String) -> (r: Value) {
        wildcard_query(search_value)
    }
}

impl IndexDocument for Process {
    open spec fn spec_mapping(&self) -> ValModel {
        spec_mapping_of(seq![(Key::Uuid, spec_type_entry("keyword"@)), (Key::Id, spec_type_entry("keyword"@)), (Key::InternalId, spec_type_entry("integer"@)), (Key::Code, spec_type_entry("keyword"@)), (Key::Name, spec_type_entry("text"@)), (Key::Description, spec_type_entry("text"@)), (Key::Help, spec_type_entry("text"@)), (Key::IsReport, spec_type_entry("boolean"@))])
    }

    open spec fn spec_data(&self) -> ValModel {
        Process::enc(self.model())
    }

    open spec fn id_ready(&self) -> bool {
        self.id is Some
    }

    open spec fn spec_id(&self) -> Seq<char> {
        match self.id {
            Option::Some(s) => s@,
            Option::None => Seq::empty(),
        }
    }

    open spec fn spec_index(&self) -> Seq<char> {
        match self.index_value {
            Option::Some(v) => v@,
            Option::None => "process"@,
        }
    }

    fn mapping(&self) -> (r: Value) {
        let mut props: Vec<(Key, Value)> = Vec::new();
        props.push((Key::Uuid, type_entry("keyword")));
        props.push((Key::Id, type_entry("keyword")));
        props.push((Key::InternalId, type_entry("integer")));
        props.push((Key::Code, type_entry("keyword")));
        props.push((Key::Name, type_entry("text")));
        props.push((Key::Description, type_entry("text")));
        props.push((Key::Help, type_entry("text")));
        props.push((Key::IsReport, type_entry("boolean")));
        proof {
            lemma_fields_of(props@);
            let target = seq![(Key::Uuid, spec_type_entry("keyword"@)), (Key::Id, spec_type_entry("keyword"@)), (Key::InternalId, spec_type_entry("integer"@)), (Key::Code, spec_type_entry("keyword"@)), (Key::Name, spec_type_entry("text"@)), (Key::Description, spec_type_entry("text"@)), (Key::Help, spec_type_entry("text"@)), (Key::IsReport, spec_type_entry("boolean"@))];
            assert forall|j: int| 0 <= j < props@.len() implies Value::fields_of(props@)[j]
                == target[j] by {
                assert(Value::fields_of(props@)[j] == (props@[j].0, props@[j].1.model()));
            }
            assert(Value::fields_of(props@) =~= target);
        }
        mapping_of(props)
    }

    fn data(&self) -> (r: Value) {
        self.encode()
    }

    fn id(&self) -> (r: String) {
        match &self.id {
            Option::Some(s) => s.clone(),
            Option::None => "".to_owned(),
        }
    }

    fn index_name(&self) -> (r: String) {
        match &self.index_value {
            Option::Some(value) => value.clone(),
            Option::None => "process".to_owned(),
        }
    }

    fn find(&self, search_value: String) -> (r: Value) {
        wildcard_query(search_value)
    }
}

impl IndexDocument for Browser {
    open spec fn spec_mapping(&self) -> ValModel {
        spec_mapping_of(seq![(Key::Uuid, spec_type_entry("keyword"@)), (Key::Id, spec_type_entry("keyword"@)), (Key::InternalId, spec_type_entry("integer"@)), (Key::Code, spec_type_entry("keyword"@)), (Key::Name, spec_type_entry("text"@)), (Key::Description, spec_type_entry("text"@)), (Key::Help, spec_type_entry("text"@))])
    }

    open spec fn spec_data(&self) -> ValModel {
        Browser::enc(self.model())
    }

    open spec fn id_ready(&self) -> bool {
        true
    }

    open spec fn spec_id(&self) -> Seq<char> {
        match self.id {
            Option::Some(s) => s@,
            Option::None => Seq::empty(),
        }
    }

    open spec fn spec_index(&self) -> Seq<char> {
        match self.index_value {
            Option::Some(v) => v@,
            Option::None => "browser"@,
        }
    }

    fn mapping(&self) -> (r: Value) {
        let mut props: Vec<(Key, Value)> = Vec::new();
        props.push((Key::Uuid, type_entry("keyword")));
        props.push((Key::Id, type_entry("keyword")));
        props.push((Key::InternalId, type_entry("integer")));
        props.push((Key::Code, type_entry("keyword")));
        props.push((Key::Name, type_entry("text")));
        props.push((Key::Description, type_entry("text")));
        props.push((Key::Help, type_entry("text")));
        proof {
            lemma_fields_of(props@);
            let target = seq![(Key::Uuid, spec_type_entry("keyword"@)), (Key::Id, spec_type_entry("keyword"@)), (Key::InternalId, spec_type_entry("integer"@)), (Key::Code, spec_type_entry("keyword"@)), (Key::Name, spec_type_entry("text"@)), (Key::Description, spec_type_entry("text"@)), (Key::Help, spec_type_entry("text"@))];
            assert forall|j: int| 0 <= j < props@.len() implies Value::fields_of(props@)[j]
                == target[j] by {
                assert(Value::fields_of(props@)[j] == (props@[j].0, props@[j].1.model()));
            }
            assert(Value::fields_of(props@) =~= target);
        }
        mapping_of(props)
    }

    fn data(&self) -> (r: Value) {
        self.encode()
    }

    fn id(&self) -> (r: String) {
        match &self.id {
            Option::Some(s) => s.clone(),
            Option::None => {
                let r = String::new();
                r
            },
        }
    }

    fn index_name(&self) -> (r: String) {
        match &self.index_value {
            Option::Some(value) => value.clone(),
            Option::None => "browser".to_owned(),
        }
    }

    fn find(&self, search_value: String) -> (r: Value) {
        wildcard_query(search_value)
    }
}

impl IndexDocument for Form {
    open spec fn spec_mapping(&self) -> ValModel {
        spec_mapping_of(seq![(Key::Uuid, spec_type_entry("keyword"@)), (Key::Id, spec_type_entry("keyword"@)), (Key::InternalId, spec_type_entry("integer"@)), (Key::FileName, spec_type_entry("keyword"@)), (Key::Name, spec_type_entry("text"@)), (Key::Description, spec_type_entry("text"@)), (Key::Help, spec_type_entry("text"@))])
    }

    open spec fn spec_data(&self) -> ValModel {
        Form::enc(self.model())
    }

    open spec fn id_ready(&self) -> bool {
        true
    }

    open spec fn spec_id(&self) -> Seq<char> {
        match self.id {
            Option::Some(s) => s@,
            Option::None => Seq::empty(),
        }
    }

    open spec fn spec_index(&self) -> Seq<char> {
        match self.index_value {
            Option::Some(v) => v@,
            Option::None => "forms"@,
        }
    }

    fn mapping(&self) -> (r: Value) {
        let mut props: Vec<(Key, Value)> = Vec::new();
        props.push((Key::Uuid, type_entry("keyword")));
        props.push((Key::Id, type_entry("keyword")));
        props.push((Key::InternalId, type_entry("integer")));
        props.push((Key::FileName, type_entry("keyword")));
        props.push((Key::Name, type_entry("text")));
        props.push((Key::Description, type_entry("text")));
        props.push((Key::Help, type_entry("text")));
        proof {
            lemma_fields_of(props@);
            let target = seq![(Key::Uuid, spec_type_entry("keyword"@)), (Key::Id, spec_type_entry("keyword"@)), (Key::InternalId, spec_type_entry("integer"@)), (Key::FileName, spec_type_entry("keyword"@)), (Key::Name, spec_type_entry("text"@)), (Key::Description, spec_type_entry("text"@)), (Key::Help, spec_type_entry("text"@))];
            assert forall|j: int| 0 <= j < props@.len() implies Value::fields_of(props@)[j]
                == target[j] by {
                assert(Value::fields_of(props@)[j] == (props@[j].0, props@[j].1.model()));
            }
            assert(Value::fields_of(props@) =~= target);
        }
        mapping_of(props)
    }

    fn data(&self) -> (r: Value) {
        self.encode()
    }

    fn id(&self) -> (r: String) {
        match &self.id {
            Option::Some(s) => s.clone(),
            Option::None => {
                let r = String::new();
                r
            },
        }
    }

    fn index_name(&self) -> (r: String) {
        match &self.index_value {
            Option::Some(value) => value.clone(),
            Option::None => "forms".to_owned(),
        }
    }

    fn find(&self, search_value: String) -> (r: Value) {
        wildcard_query(search_value)
    }
}

impl IndexDocument for Generic {
    open spec fn spec_mapping(&self) -> ValModel {
        spec_mapping_of(seq![(Key::Uuid, spec_type_entry("keyword"@)), (Key::Id, spec_type_entry("keyword"@)), (Key::InternalId, spec_type_entry("integer"@)), (Key::ParentId, spec_type_entry("integer"@)), (Key::Sequence, spec_type_entry("integer"@)), (Key::Name, spec_type_entry("text"@)), (Key::Description, spec_type_entry("text"@))])
    }

    open spec fn spec_data(&self) -> ValModel {
        Generic::enc(self.model())
    }

    open spec fn id_ready(&self) -> bool {
        self.id is Some
    }

    open spec fn spec_id(&self) -> Seq<char> {
        match self.id {
            Option::Some(s) => s@,
            Option::None => Seq::empty(),
        }
    }

    open spec fn spec_index(&self) -> Seq<char> {
        match self.index_value {
            Option::Some(v) => v@,
            Option::None => "menu"@,
        }
    }

    fn mapping(&self) -> (r: Value) {
        let mut props: Vec<(Key, Value)> = Vec::new();
        props.push((Key::Uuid, type_entry("keyword")));
        props.push((Key::Id, type_entry("keyword")));
        props.push((Key::InternalId, type_entry("integer")));
        props.push((Key::ParentId, type_entry("integer")));
        props.push((Key::Sequence, type_entry("integer")));
        props.push((Key::Name, type_entry("text")));
        props.push((Key::Description, type_entry("text")));
        proof {
            lemma_fields_of(props@);
            let target = seq![(Key::Uuid, spec_type_entry("keyword"@)), (Key::Id, spec_type_entry("keyword"@)), (Key::InternalId, spec_type_entry("integer"@)), (Key::ParentId, spec_type_entry("integer"@)), (Key::Sequence, spec_type_entry("integer"@)), (Key::Name, spec_type_entry("text"@)), (Key::Description, spec_type_entry("text"@))];
            assert forall|j: int| 0 <= j < props@.len() implies Value::fields_of(props@)[j]
                == target[j] by {
                assert(Value::fields_of(props@)[j] == (props@[j].0, props@[j].1.model()));
            }
            assert(Value::fields_of(props@) =~= target);
        }
        mapping_of(props)
    }

    fn data(&self) -> (r: Value) {
        self.encode()
    }

    fn id(&self) -> (r: String) {
        match &self.id {
            Option::Some(s) => s.clone(),
            Option::None => "".to_owned(),
        }
    }

    fn index_name(&self) -> (r: String) {
        match &self.index_value {
            Option::Some(value) => value.clone(),
            Option::None => "menu".to_owned(),
        }
    }

    fn find(&self, search_value: String) -> (r: Value) {
        wildcard_query(search_value)
    }
}

/// A tagged sum of the projected entity kinds, dispatching the
/// [`IndexDocument`] contract to the wrapped record.
#[derive(Debug)]
pub enum Document {
    MenuItem(MenuItem),
    MenuTree(MenuTree),
    Role(Role),
    Window(Window),
    Process(Process),
    Browser(Browser),
    Form(Form),
    Generic(Generic),
}

impl IndexDocument for Document {
    open spec fn spec_mapping(&self) -> ValModel {
        match self {
            Document::MenuItem(d) => d.spec_mapping(),
            Document::MenuTree(d) => d.spec_mapping(),
            Document::Role(d) => d.spec_mapping(),
            Document::Window(d) => d.spec_mapping(),
            Document::Process(d) => d.spec_mapping(),
            Document::Browser(d) => d.spec_mapping(),
            Document::Form(d) => d.spec_mapping(),
            Document::Generic(d) => d.spec_mapping(),
        }
    }

    open spec fn spec_data(&self) -> ValModel {
        match self {
            Document::MenuItem(d) => d.spec_data(),
            Document::MenuTree(d) => d.spec_data(),
            Document::Role(d) => d.spec_data(),
            Document::Window(d) => d.spec_data(),
            Document::Process(d) => d.spec_data(),
            Document::Browser(d) => d.spec_data(),
            Document::Form(d) => d.spec_data(),
            Document::Generic(d) => d.spec_data(),
        }
    }

    open spec fn id_ready(&self) -> bool {
        match self {
            Document::MenuItem(d) => d.id_ready(),
            Document::MenuTree(d) => d.id_ready(),
            Document::Role(d) => d.id_ready(),
            Document::Window(d) => d.id_ready(),
            Document::Process(d) => d.id_ready(),
            Document::Browser(d) => d.id_ready(),
            Document::Form(d) => d.id_ready(),
            Document::Generic(d) => d.id_ready(),
        }
    }

    open spec fn spec_id(&self) -> Seq<char> {
        match self {
            Document::MenuItem(d) => d.spec_id(),
            Document::MenuTree(d) => d.spec_id(),
            Document::Role(d) => d.spec_id(),
            Document::Window(d) => d.spec_id(),
            Document::Process(d) => d.spec_id(),
            Document::Browser(d) => d.spec_id(),
            Document::Form(d) => d.spec_id(),
            Document::Generic(d) => d.spec_id(),
        }
    }

    open spec fn spec_index(&self) -> Seq<char> {
        match self {
            Document::MenuItem(d) => d.spec_index(),
            Document::MenuTree(d) => d.spec_index(),
            Document::Role(d) => d.spec_index(),
            Document::Window(d) => d.spec_index(),
            Document::Process(d) => d.spec_index(),
            Document::Browser(d) => d.spec_index(),
            Document::Form(d) => d.spec_index(),
            Document::Generic(d) => d.spec_index(),
        }
    }

    fn mapping(&self) -> (r: Value) {
        match self {
            Document::MenuItem(d) => d.mapping(),
            Document::MenuTree(d) => d.mapping(),
            Document::Role(d) => d.mapping(),
            Document::Window(d) => d.mapping(),
            Document::Process(d) => d.mapping(),
            Document::Browser(d) => d.mapping(),
            Document::Form(d) => d.mapping(),
            Document::Generic(d) => d.mapping(),
        }
    }

    fn data(&self) -> (r: Value) {
        match self {
            Document::MenuItem(d) => d.data(),
            Document::MenuTree(d) => d.data(),
            Document::Role(d) => d.data(),
            Document::Window(d) => d.data(),
            Document::Process(d) => d.data(),
            Document::Browser(d) => d.data(),
            Document::Form(d) => d.data(),
            Document::Generic(d) => d.data(),
        }
    }

    fn id(&self) -> (r: String) {
        match self {
            Document::MenuItem(d) => d.id(),
            Document::MenuTree(d) => d.id(),
            Document::Role(d) => d.id(),
            Document::Window(d) => d.id(),
            Document::Process(d) => d.id(),
            Document::Browser(d) => d.id(),
            Document::Form(d) => d.id(),
            Document::Generic(d) => d.id(),
        }
    }

    fn index_name(&self) -> (r: String) {
        match self {
            Document::MenuItem(d) => d.index_name(),
            Document::MenuTree(d) => d.index_name(),
            Document::Role(d) => d.index_name(),
            Document::Window(d) => d.index_name(),
            Document::Process(d) => d.index_name(),
            Document::Browser(d) => d.index_name(),
            Document::Form(d) => d.index_name(),
            Document::Generic(d) => d.index_name(),
        }
    }

    fn find(&self, search_value: String) -> (r: Value) {
        match self {
            Document::MenuItem(d) => d.find(search_value),
            Document::MenuTree(d) => d.find(search_value),
            Document::Role(d) => d.find(search_value),
            Document::Window(d) => d.find(search_value),
            Document::Process(d) => d.find(search_value),
            Document::Browser(d) => d.find(search_value),
            Document::Form(d) => d.find(search_value),
            Document::Generic(d) => d.find(search_value),
        }
    }
}

} // verus!
