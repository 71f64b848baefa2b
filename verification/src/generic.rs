//! A generic stored record, used where only identity and a display value
//! are required.

use vstd::prelude::*;
use crate::text::view_opt;
use crate::value::dec_opt_bool;
use crate::value::dec_opt_i32;
use crate::value::dec_opt_text;
use crate::value::dec_opt_texts;
use crate::value::decode_opt_bool;
use crate::value::decode_opt_i32;
use crate::value::decode_opt_text;
use crate::value::decode_opt_texts;
use crate::value::enc_opt_bool;
use crate::value::enc_opt_i32;
use crate::value::enc_opt_text;
use crate::value::enc_opt_texts;
use crate::value::encode_opt_bool;
use crate::value::encode_opt_i32;
use crate::value::encode_opt_text;
use crate::value::encode_opt_texts;
use crate::value::lemma_fields_of;
use crate::value::lemma_models_of;
use crate::value::lemma_opt_texts_round_trip;
use crate::value::view_opt_texts;
use crate::value::Key;
use crate::value::ValModel;
use crate::value::Value;


verus! {

/// A generic record with identity and display value.
#[derive(Debug, Clone)]
pub struct Generic {
    pub uuid: Option<String>,
    pub internal_id: Option<i32>,
    pub id: Option<String>,
    pub display_value: Option<String>,
    pub index_value: Option<String>,
}

/// The mathematical model of a [`Generic`].
pub struct GenericModel {
    pub uuid: Option<Seq<char>>,
    pub internal_id: Option<i32>,
    pub id: Option<Seq<char>>,
    pub display_value: Option<Seq<char>>,
    pub index_value: Option<Seq<char>>,
}

impl Generic {
    pub open spec fn model(self) -> GenericModel {
        GenericModel {
            uuid: view_opt(self.uuid),
            internal_id: self.internal_id,
            id: view_opt(self.id),
            display_value: view_opt(self.display_value),
            index_value: view_opt(self.index_value),
        }
    }

    pub open spec fn empty_model() -> GenericModel {
        GenericModel {
            uuid: Option::None,
            internal_id: Option::None,
            id: Option::None,
            display_value: Option::None,
            index_value: Option::None,
        }
    }

    /// The stored shape: every field present under its key, absent values
    /// as null.
    pub open spec fn enc(m: GenericModel) -> ValModel {
        ValModel::Object(
            seq![
                (Key::Uuid, enc_opt_text(m.uuid)),
                (Key::InternalId, enc_opt_i32(m.internal_id)),
                (Key::Id, enc_opt_text(m.id)),
                (Key::DisplayValue, enc_opt_text(m.display_value)),
                (Key::IndexValue, enc_opt_text(m.index_value)),
            ],
        )
    }

    /// One decoding step: a recognized key sets its field; unknown keys are
    /// ignored.
    pub open spec fn apply_field(m: GenericModel, k: Key, v: ValModel) -> GenericModel {
        match k {
            Key::Uuid => GenericModel { uuid: dec_opt_text(v), ..m },
            Key::InternalId => GenericModel { internal_id: dec_opt_i32(v), ..m },
            Key::Id => GenericModel { id: dec_opt_text(v), ..m },
            Key::DisplayValue => GenericModel { display_value: dec_opt_text(v), ..m },
            Key::IndexValue => GenericModel { index_value: dec_opt_text(v), ..m },
            _ => m,
        }
    }

    pub open spec fn fold_fields(m: GenericModel, fs: Seq<(Key, ValModel)>, i: int) -> GenericModel
        decreases fs.len() - i,
    {
        if i < 0 || i >= fs.len() {
            m
        } else {
            Generic::fold_fields(Generic::apply_field(m, fs[i].0, fs[i].1), fs, i + 1)
        }
    }

    /// Decoding of a stored document into a model; only objects decode.
    pub open spec fn dec(v: ValModel) -> Option<GenericModel> {
        match v {
            ValModel::Object(fs) => Option::Some(Generic::fold_fields(Generic::empty_model(), fs, 0)),
            _ => Option::None,
        }
    }

    pub fn empty() -> (r: Generic)
        ensures
            r.model() == Generic::empty_model(),
    {
        Generic {
            uuid: Option::None,
            internal_id: Option::None,
            id: Option::None,
            display_value: Option::None,
            index_value: Option::None,
        }
    }

    /// The stored payload of this record.
    pub fn encode(&self) -> (r: Value)
        ensures
            r.model() == Generic::enc(self.model()),
    {
        let mut fs: Vec<(Key, Value)> = Vec::new();
        fs.push((Key::Uuid, encode_opt_text(&self.uuid)));
        fs.push((Key::InternalId, encode_opt_i32(&self.internal_id)));
        fs.push((Key::Id, encode_opt_text(&self.id)));
        fs.push((Key::DisplayValue, encode_opt_text(&self.display_value)));
        fs.push((Key::IndexValue, encode_opt_text(&self.index_value)));
        proof {
            lemma_fields_of(fs@);
            let target = Generic::enc(self.model())->Object_0;
            assert forall|j: int| 0 <= j < fs@.len() implies Value::fields_of(fs@)[j]
                == target[j] by {
                assert(Value::fields_of(fs@)[j] == (fs@[j].0, fs@[j].1.model()));
            }
            assert(Value::fields_of(fs@) =~= target);
        }
        Value::Object(fs)
    }

    /// Decoding of a stored document; inverse of [`Generic::encode`] on the
    /// models.
    pub fn decode(v: &Value) -> (r: Option<Generic>)
        ensures
            match (r, Generic::dec(v.model())) {
                (Option::Some(x), Option::Some(m)) => x.model() == m,
                (Option::None, Option::None) => true,
                _ => false,
            },
    {
        match v {
            Value::Object(fs) => {
                let ghost fsm = Value::fields_of(fs@);
                proof {
                    lemma_fields_of(fs@);
                }
                let mut out = Generic::empty();
                let mut i: usize = 0;
                while i < fs.len()
                    invariant
                        0 <= i <= fs@.len(),
                        fsm == Value::fields_of(fs@),
                        fsm.len() == fs@.len(),
                        forall|k: int|
                            0 <= k < fs@.len() ==> fsm[k] == (#[trigger] fs@[k].0, fs@[k].1.model()),
                        Generic::fold_fields(Generic::empty_model(), fsm, 0)
                            == Generic::fold_fields(out.model(), fsm, i as int),
                    decreases fs@.len() - i,
                {
                    let ghost before = out.model();
                    let (k, v) = &fs[i];
                    match k {
                        Key::Uuid => out.uuid = decode_opt_text(v),
                        Key::InternalId => out.internal_id = decode_opt_i32(v),
                        Key::Id => out.id = decode_opt_text(v),
                        Key::DisplayValue => out.display_value = decode_opt_text(v),
                        Key::IndexValue => out.index_value = decode_opt_text(v),
                        _ => {
                        },
                    }
                    proof {
                        assert(out.model() == Generic::apply_field(before, fsm[i as int].0, fsm[i as int].1));
                    }
                    i = i + 1;
                }
                Option::Some(out)
            },
            _ => Option::None,
        }
    }
}

/// The model of an optional generic record.
pub open spec fn view_opt_generic(o: Option<Generic>) -> Option<GenericModel> {
    match o {
        Option::None => Option::None,
        Option::Some(x) => Option::Some(x.model()),
    }
}

pub open spec fn enc_opt_generic(o: Option<GenericModel>) -> ValModel {
    match o {
        Option::None => ValModel::Null,
        Option::Some(m) => Generic::enc(m),
    }
}

pub fn encode_opt_generic(o: &Option<Generic>) -> (r: Value)
    ensures
        r.model() == enc_opt_generic(view_opt_generic(*o)),
{
    match o {
        Option::None => Value::Null,
        Option::Some(x) => x.encode(),
    }
}

pub fn decode_opt_generic(v: &Value) -> (r: Option<Generic>)
    ensures
        view_opt_generic(r) == Generic::dec(v.model()),
{
    Generic::decode(v)
}

/// Decoding inverts encoding for every generic record.
#[verifier::rlimit(100)]
pub proof fn lemma_generic_round_trip(m: GenericModel)
    ensures
        Generic::dec(Generic::enc(m)) == Option::Some(m),
{
    let fs = Generic::enc(m)->Object_0;
    let s0 = Generic::empty_model();
    let s1 = Generic::apply_field(s0, fs[0].0, fs[0].1);
    let s2 = Generic::apply_field(s1, fs[1].0, fs[1].1);
    let s3 = Generic::apply_field(s2, fs[2].0, fs[2].1);
    let s4 = Generic::apply_field(s3, fs[3].0, fs[3].1);
    let s5 = Generic::apply_field(s4, fs[4].0, fs[4].1);
    assert(Generic::fold_fields(s5, fs, 5) == s5);
    assert(Generic::fold_fields(s4, fs, 4) == s5);
    assert(Generic::fold_fields(s3, fs, 3) == s5);
    assert(Generic::fold_fields(s2, fs, 2) == s5);
    assert(Generic::fold_fields(s1, fs, 1) == s5);
    assert(Generic::fold_fields(s0, fs, 0) == s5);
    assert(s5 == m);
}

/// The CDC envelope around one generic record.
#[derive(Debug)]
pub struct GenericDocument {
    pub document: Option<Generic>,
}

impl Default for Generic {
    fn default() -> (r: Generic)
        ensures
            r.model() == Generic::empty_model(),
    {
        Generic::empty()
    }
}

} // verus!
