//! Structured document values.
//!
//! Every projected entity is stored as a structured map built from [`Value`].
//! Field names are drawn from the closed vocabulary [`Key`]; adapters render a
//! `Key` as its snake-case wire name.  The specification-level mirror of a
//! value is [`ValModel`], where text is a character sequence and lists are
//! mathematical sequences.

use vstd::prelude::*;

verus! {

/// The field-name vocabulary of the stored documents, the index mappings and
/// the search DSL.
#[derive(Clone, Copy, PartialEq, Eq, Structural, Debug)]
pub enum Key {
    // identity
    Uuid,
    Id,
    InternalId,
    // hierarchy and ordering
    ParentId,
    ParentUuid,
    ParentName,
    NodeId,
    TreeId,
    TreeUuid,
    Sequence,
    Children,
    // presentation
    Name,
    Description,
    Help,
    FileName,
    Code,
    DisplayValue,
    // flags
    IsSummary,
    IsSalesTransaction,
    IsReadOnly,
    IsActive,
    IsBetaFunctionality,
    IsReport,
    IsRange,
    IsMandatory,
    IsDisplayed,
    HasParameters,
    // action references
    Action,
    ActionId,
    ActionUuid,
    Window,
    Process,
    Form,
    Browser,
    Workflow,
    // audience
    IndexValue,
    Language,
    ClientId,
    RoleId,
    UserId,
    // role access lists
    WindowAccess,
    ProcessAccess,
    FormAccess,
    BrowserAccess,
    WorkflowAccess,
    DashboardAccess,
    // nested structure
    Tabs,
    Fields,
    Processes,
    Parameters,
    TabLevel,
    TableName,
    ColumnName,
    DisplayType,
    DefaultValue,
    DefaultValueTo,
    WindowType,
    ShowHelp,
    FieldKey,
    AccessLevel,
    Reference,
    DependentFields,
    ReferenceId,
    ReferenceValueId,
    ContextColumnNames,
    // envelope and responses
    Document,
    // additional entity attributes
    BrowserId,
    DisplayLogic,
    ElementName,
    FieldLength,
    FormId,
    GridSequence,
    IdentifierColumns,
    IsAlwaysUpdateable,
    IsChangeLog,
    IsCollapsibleByDefault,
    IsDeleteable,
    IsDocument,
    IsExecuteQueryByDefault,
    IsIdentifier,
    IsInfoOnly,
    IsKey,
    IsMultiSelection,
    IsOrderBy,
    IsQueryCriteria,
    IsSearchProcess,
    IsSelectedByDefault,
    IsShowTotal,
    IsSingleRow,
    IsUpdateable,
    IsView,
    KeyColumns,
    MandatoryLogic,
    PrintFormatId,
    ProcessId,
    ProcessUuid,
    ProcessesUuid,
    ReadOnlyLogic,
    ReportViewId,
    SelectionColums,
    SortSequence,
    Table,
    WindowId,
    WorkflowId,
    // index mapping schema
    Mappings,
    Properties,
    Type,
    // search DSL
    Query,
    QueryString,
    Bool,
    Should,
    Must,
    Match,
    Terms,
}

/// A structured document value.
#[derive(Debug)]
pub enum Value {
    Null,
    Bool(bool),
    Int(i64),
    Text(String),
    List(Vec<Value>),
    Object(Vec<(Key, Value)>),
}

/// The mathematical model of a [`Value`].
pub enum ValModel {
    Null,
    Bool(bool),
    Int(i64),
    Text(Seq<char>),
    List(Seq<ValModel>),
    Object(Seq<(Key, ValModel)>),
}

impl Value {
    /// The model of this value: views of text, sequences for lists and
    /// objects.
    pub open spec fn model(self) -> ValModel
        decreases self,
    {
        match self {
            Value::Null => ValModel::Null,
            Value::Bool(b) => ValModel::Bool(b),
            Value::Int(i) => ValModel::Int(i),
            Value::Text(s) => ValModel::Text(s@),
            Value::List(vs) => ValModel::List(Value::models_of(vs@)),
            Value::Object(fs) => ValModel::Object(Value::fields_of(fs@)),
        }
    }

    /// Models of the elements of a list, in order.
    pub open spec fn models_of(s: Seq<Value>) -> Seq<ValModel>
        decreases s,
    {
        if s.len() == 0 {
            Seq::empty()
        } else {
            seq![s[0].model()] + Value::models_of(s.drop_first())
        }
    }

    /// Models of the fields of an object, in order.
    pub open spec fn fields_of(s: Seq<(Key, Value)>) -> Seq<(Key, ValModel)>
        decreases s,
    {
        if s.len() == 0 {
            Seq::empty()
        } else {
            seq![(s[0].0, s[0].1.model())] + Value::fields_of(s.drop_first())
        }
    }
}

/// The model sequence of a list indexes point-wise into the element models.
pub proof fn lemma_models_of(s: Seq<Value>)
    ensures
        Value::models_of(s).len() == s.len(),
        forall|i: int| 0 <= i < s.len() ==> Value::models_of(s)[i] == #[trigger] s[i].model(),
    decreases s,
{
    if s.len() > 0 {
        lemma_models_of(s.drop_first());
        assert forall|i: int| 0 <= i < s.len() implies Value::models_of(s)[i] == #[trigger] s[i].model() by {
            if i > 0 {
                assert(s.drop_first()[i - 1] == s[i]);
                assert(Value::models_of(s)[i] == Value::models_of(s.drop_first())[i - 1]);
            }
        }
    }
}

/// The model sequence of an object indexes point-wise into the field models.
pub proof fn lemma_fields_of(s: Seq<(Key, Value)>)
    ensures
        Value::fields_of(s).len() == s.len(),
        forall|i: int|
            0 <= i < s.len() ==> Value::fields_of(s)[i] == (#[trigger] s[i].0, s[i].1.model()),
    decreases s,
{
    if s.len() > 0 {
        lemma_fields_of(s.drop_first());
        assert forall|i: int|
            0 <= i < s.len() implies Value::fields_of(s)[i] == (#[trigger] s[i].0, s[i].1.model()) by {
            if i > 0 {
                assert(s.drop_first()[i - 1] == s[i]);
                assert(Value::fields_of(s)[i] == Value::fields_of(s.drop_first())[i - 1]);
            }
        }
    }
}

// --- optional scalar fields -------------------------------------------------
//
// Absent is encoded as `Null`; every field of a stored document is present
// under its key, so a decoded document never depends on field order.

pub open spec fn enc_opt_text(o: Option<Seq<char>>) -> ValModel {
    match o {
        Option::None => ValModel::Null,
        Option::Some(s) => ValModel::Text(s),
    }
}

pub open spec fn dec_opt_text(v: ValModel) -> Option<Seq<char>> {
    match v {
        ValModel::Text(s) => Option::Some(s),
        _ => Option::None,
    }
}

pub open spec fn enc_opt_i32(o: Option<i32>) -> ValModel {
    match o {
        Option::None => ValModel::Null,
        Option::Some(i) => ValModel::Int(i as i64),
    }
}

pub open spec fn dec_opt_i32(v: ValModel) -> Option<i32> {
    match v {
        ValModel::Int(i) => if i32::MIN as i64 <= i <= i32::MAX as i64 {
            Option::Some(i as i32)
        } else {
            Option::None
        },
        _ => Option::None,
    }
}

pub open spec fn enc_opt_bool(o: Option<bool>) -> ValModel {
    match o {
        Option::None => ValModel::Null,
        Option::Some(b) => ValModel::Bool(b),
    }
}

pub open spec fn dec_opt_bool(v: ValModel) -> Option<bool> {
    match v {
        ValModel::Bool(b) => Option::Some(b),
        _ => Option::None,
    }
}



// --- lists of text ----------------------------------------------------------

/// Encoding of a sequence of character strings as a list of text values.
pub open spec fn enc_texts(s: Seq<Seq<char>>) -> Seq<ValModel>
    decreases s,
{
    if s.len() == 0 {
        Seq::empty()
    } else {
        seq![ValModel::Text(s[0])] + enc_texts(s.drop_first())
    }
}

/// Decoding of a list of text values; elements of any other shape are
/// ignored, as unknown fields are.
pub open spec fn dec_texts(items: Seq<ValModel>) -> Seq<Seq<char>>
    decreases items,
{
    if items.len() == 0 {
        Seq::empty()
    } else {
        match items[0] {
            ValModel::Text(s) => seq![s] + dec_texts(items.drop_first()),
            _ => dec_texts(items.drop_first()),
        }
    }
}

pub open spec fn enc_opt_texts(o: Option<Seq<Seq<char>>>) -> ValModel {
    match o {
        Option::None => ValModel::Null,
        Option::Some(s) => ValModel::List(enc_texts(s)),
    }
}

pub open spec fn dec_opt_texts(v: ValModel) -> Option<Seq<Seq<char>>> {
    match v {
        ValModel::List(items) => Option::Some(dec_texts(items)),
        _ => Option::None,
    }
}

/// Text-list decode inverts text-list encode.
pub proof fn lemma_texts_round_trip(s: Seq<Seq<char>>)
    ensures
        dec_texts(enc_texts(s)) == s,
    decreases s,
{
    if s.len() == 0 {
        assert(dec_texts(enc_texts(s)) =~= s);
    } else {
        lemma_texts_round_trip(s.drop_first());
        assert(enc_texts(s).drop_first() =~= enc_texts(s.drop_first()));
        assert(seq![s[0]] + s.drop_first() =~= s);
    }
}

/// Optional text-list decode inverts optional text-list encode.
pub proof fn lemma_opt_texts_round_trip(o: Option<Seq<Seq<char>>>)
    ensures
        dec_opt_texts(enc_opt_texts(o)) == o,
{
    match o {
        Option::None => {
        },
        Option::Some(s) => {
            lemma_texts_round_trip(s);
        },
    }
}

/// `enc_texts` indexes point-wise.
pub proof fn lemma_enc_texts_index(s: Seq<Seq<char>>)
    ensures
        enc_texts(s).len() == s.len(),
        forall|i: int| 0 <= i < s.len() ==> enc_texts(s)[i] == ValModel::Text(#[trigger] s[i]),
    decreases s,
{
    if s.len() > 0 {
        lemma_enc_texts_index(s.drop_first());
        assert forall|i: int| 0 <= i < s.len() implies enc_texts(s)[i] == ValModel::Text(
            #[trigger] s[i],
        ) by {
            if i > 0 {
                assert(s.drop_first()[i - 1] == s[i]);
                assert(enc_texts(s)[i] == enc_texts(s.drop_first())[i - 1]);
            }
        }
    }
}

// --- executable counterparts ------------------------------------------------

pub fn encode_opt_text(o: &Option<String>) -> (r: Value)
    ensures
        r.model() == enc_opt_text(crate::text::view_opt(*o)),
{
    match o {
        Option::None => Value::Null,
        Option::Some(s) => Value::Text(s.clone()),
    }
}

pub fn decode_opt_text(v: &Value) -> (r: Option<String>)
    ensures
        crate::text::view_opt(r) == dec_opt_text(v.model()),
{
    match v {
        Value::Text(s) => Option::Some(s.clone()),
        _ => Option::None,
    }
}

pub fn encode_opt_i32(o: &Option<i32>) -> (r: Value)
    ensures
        r.model() == enc_opt_i32(*o),
{
    match o {
        Option::None => Value::Null,
        Option::Some(i) => Value::Int(*i as i64),
    }
}

pub fn decode_opt_i32(v: &Value) -> (r: Option<i32>)
    ensures
        r == dec_opt_i32(v.model()),
{
    match v {
        Value::Int(i) => if i32::MIN as i64 <= *i && *i <= i32::MAX as i64 {
            Option::Some(*i as i32)
        } else {
            Option::None
        },
        _ => Option::None,
    }
}

pub fn encode_opt_bool(o: &Option<bool>) -> (r: Value)
    ensures
        r.model() == enc_opt_bool(*o),
{
    match o {
        Option::None => Value::Null,
        Option::Some(b) => Value::Bool(*b),
    }
}

pub fn decode_opt_bool(v: &Value) -> (r: Option<bool>)
    ensures
        r == dec_opt_bool(v.model()),
{
    match v {
        Value::Bool(b) => Option::Some(*b),
        _ => Option::None,
    }
}

/// View of an optional vector of strings.
pub open spec fn view_opt_texts(o: Option<Vec<String>>) -> Option<Seq<Seq<char>>> {
    match o {
        Option::None => Option::None,
        Option::Some(v) => Option::Some(Seq::new(v@.len(), |i: int| v@[i]@)),
    }
}

pub fn encode_opt_texts(o: &Option<Vec<String>>) -> (r: Value)
    ensures
        r.model() == enc_opt_texts(view_opt_texts(*o)),
{
    match o {
        Option::None => Value::Null,
        Option::Some(v) => {
            let mut out: Vec<Value> = Vec::new();
            let mut i: usize = 0;
            while i < v.len()
                invariant
                    0 <= i <= v@.len(),
                    out@.len() == i,
                    forall|j: int| 0 <= j < i ==> #[trigger] out@[j].model() == ValModel::Text(v@[j]@),
                decreases v@.len() - i,
            {
                out.push(Value::Text(v[i].clone()));
                i = i + 1;
            }
            proof {
                let vs = view_opt_texts(*o)->Some_0;
                lemma_models_of(out@);
                lemma_enc_texts_index(vs);
                assert forall|j: int| 0 <= j < out@.len() implies Value::models_of(out@)[j]
                    == enc_texts(vs)[j] by {
                    assert(out@[j].model() == ValModel::Text(v@[j]@));
                    assert(vs[j] == v@[j]@);
                }
                assert(Value::models_of(out@) =~= enc_texts(vs));
            }
            Value::List(out)
        },
    }
}

pub fn decode_opt_texts(v: &Value) -> (r: Option<Vec<String>>)
    ensures
        view_opt_texts(r) == dec_opt_texts(v.model()),
{
    match v {
        Value::List(items) => {
            let mut out: Vec<String> = Vec::new();
            let mut i: usize = 0;
            let ghost ms = Value::models_of(items@);
            proof {
                lemma_models_of(items@);
                assert(ms.subrange(0, ms.len() as int) =~= ms);
                assert(Seq::new(0, |j: int| out@[j]@) + dec_texts(ms) =~= dec_texts(ms));
            }
            while i < items.len()
                invariant
                    0 <= i <= items@.len(),
                    ms == Value::models_of(items@),
                    ms.len() == items@.len(),
                    forall|k: int| 0 <= k < items@.len() ==> ms[k] == #[trigger] items@[k].model(),
                    dec_texts(ms) == Seq::new(out@.len(), |j: int| out@[j]@) + dec_texts(
                        ms.subrange(i as int, ms.len() as int),
                    ),
                decreases items@.len() - i,
            {
                let ghost prev = Seq::new(out@.len(), |j: int| out@[j]@);
                let ghost rest = ms.subrange(i as int, ms.len() as int);
                proof {
                    assert(rest[0] == ms[i as int]);
                    assert(rest.drop_first() =~= ms.subrange(i + 1, ms.len() as int));
                }
                match &items[i] {
                    Value::Text(s) => {
                        proof {
                            assert(ms[i as int] == items@[i as int].model());
                            assert(ms[i as int] == ValModel::Text(s@));
                        }
                        out.push(s.clone());
                        proof {
                            assert(Seq::new(out@.len(), |j: int| out@[j]@) =~= prev + seq![s@]);
                            assert(prev + seq![s@] + dec_texts(ms.subrange(i + 1, ms.len() as int))
                                =~= prev + (seq![s@] + dec_texts(ms.subrange(i + 1, ms.len() as int))));
                        }
                    },
                    _ => {
                        proof {
                            assert(ms[i as int] == items@[i as int].model());
                            assert(!(ms[i as int] is Text));
                        }
                    },
                }
                i = i + 1;
            }
            proof {
                assert(ms.subrange(ms.len() as int, ms.len() as int) =~= Seq::<ValModel>::empty());
                assert(dec_texts(ms) =~= Seq::new(out@.len(), |j: int| out@[j]@));
            }
            Option::Some(out)
        },
        _ => Option::None,
    }
}

impl Value {
    /// A copy of this value with the same model.
    pub fn duplicate(&self) -> (r: Value)
        ensures
            r.model() == self.model(),
        decreases *self,
    {
        match self {
            Value::Null => Value::Null,
            Value::Bool(b) => Value::Bool(*b),
            Value::Int(i) => Value::Int(*i),
            Value::Text(s) => Value::Text(s.clone()),
            Value::List(vs) => {
                let mut out: Vec<Value> = Vec::new();
                let mut i: usize = 0;
                proof {
                    assert(decreases_to!(*self => self->List_0));
                    assert(decreases_to!(self->List_0 => vs@));
                }
                while i < vs.len()
                    invariant
                        0 <= i <= vs@.len(),
                        out@.len() == i,
                        forall|j: int| 0 <= j < i ==> #[trigger] out@[j].model() == vs@[j].model(),
                        decreases_to!(*self => vs@),
                    decreases vs@.len() - i,
                {
                    proof {
                        assert(decreases_to!(vs@ => vs@[i as int]));
                    }
                    let d = vs[i].duplicate();
                    out.push(d);
                    i = i + 1;
                }
                proof {
                    lemma_models_of(out@);
                    lemma_models_of(vs@);
                    assert forall|j: int| 0 <= j < out@.len() implies Value::models_of(out@)[j]
                        == Value::models_of(vs@)[j] by {
                        assert(Value::models_of(out@)[j] == out@[j].model());
                        assert(Value::models_of(vs@)[j] == vs@[j].model());
                    }
                    assert(Value::models_of(out@) =~= Value::models_of(vs@));
                }
                Value::List(out)
            },
            Value::Object(fs) => {
                let mut out: Vec<(Key, Value)> = Vec::new();
                let mut i: usize = 0;
                proof {
                    assert(decreases_to!(*self => self->Object_0));
                    assert(decreases_to!(self->Object_0 => fs@));
                }
                while i < fs.len()
                    invariant
                        0 <= i <= fs@.len(),
                        out@.len() == i,
                        forall|j: int|
                            0 <= j < i ==> #[trigger] out@[j].0 == fs@[j].0 && out@[j].1.model()
                                == fs@[j].1.model(),
                        decreases_to!(*self => fs@),
                    decreases fs@.len() - i,
                {
                    proof {
                        assert(decreases_to!(fs@ => fs@[i as int]));
                        assert(decreases_to!(fs@[i as int] => fs@[i as int].1));
                    }
                    let (k, v) = &fs[i];
                    let d = v.duplicate();
                    out.push((*k, d));
                    i = i + 1;
                }
                proof {
                    lemma_fields_of(out@);
                    lemma_fields_of(fs@);
                    assert forall|j: int| 0 <= j < out@.len() implies Value::fields_of(out@)[j]
                        == Value::fields_of(fs@)[j] by {
                        assert(Value::fields_of(out@)[j] == (out@[j].0, out@[j].1.model()));
                        assert(Value::fields_of(fs@)[j] == (fs@[j].0, fs@[j].1.model()));
                    }
                    assert(Value::fields_of(out@) =~= Value::fields_of(fs@));
                }
                Value::Object(out)
            },
        }
    }
}

} // verus!
