//! The search-store model: named indices holding documents keyed by id.
//!
//! [`MemoryStore`] gives the gateway operations their exact semantics:
//! `create_index_definition` is idempotent, `create` replaces a same-id
//! document wholesale, `delete` treats a missing document as success, and
//! `get_by_id` returns the stored payload or a not-found error.  A network
//! store behaves the same way through an adapter; the projection pipeline
//! and the tests run against this model.

use vstd::prelude::*;
use crate::document::IndexDocument;
use crate::errors::ServiceError;
use crate::value::ValModel;
use crate::value::Value;

verus! {

/// One index: its name, the mapping it was created with, and its documents.
#[derive(Debug)]
pub struct StoredIndex {
    pub name: String,
    pub mapping: Value,
    pub docs: Vec<(String, Value)>,
}

/// The store: a list of indices; lookups resolve to the first index with a
/// matching name and the first document with a matching id.
#[derive(Debug)]
pub struct MemoryStore {
    pub indices: Vec<StoredIndex>,
}

/// The payload stored under an id, if any.
pub open spec fn lookup_doc(docs: Seq<(String, Value)>, id: Seq<char>) -> Option<ValModel>
    decreases docs,
{
    if docs.len() == 0 {
        Option::None
    } else if docs[0].0@ == id {
        Option::Some(docs[0].1.model())
    } else {
        lookup_doc(docs.drop_first(), id)
    }
}

/// The documents of the index with the given name, if it exists.
pub open spec fn lookup_index(indices: Seq<StoredIndex>, name: Seq<char>) -> Option<
    Seq<(String, Value)>,
>
    decreases indices,
{
    if indices.len() == 0 {
        Option::None
    } else if indices[0].name@ == name {
        Option::Some(indices[0].docs@)
    } else {
        lookup_index(indices.drop_first(), name)
    }
}

impl MemoryStore {
    /// The index with this name exists.
    pub open spec fn spec_has_index(self, name: Seq<char>) -> bool {
        lookup_index(self.indices@, name) is Some
    }

    /// The payload stored at `(index, id)`, if any.
    pub open spec fn spec_lookup(self, name: Seq<char>, id: Seq<char>) -> Option<ValModel> {
        match lookup_index(self.indices@, name) {
            Option::None => Option::None,
            Option::Some(docs) => lookup_doc(docs, id),
        }
    }

    /// An empty store.
    pub fn new() -> (r: MemoryStore)
        ensures
            forall|n: Seq<char>| !r.spec_has_index(n),
            forall|n: Seq<char>, id: Seq<char>| r.spec_lookup(n, id) is None,
    {
        MemoryStore { indices: Vec::new() }
    }

    /// A 2xx probe: whether the index exists.
    pub fn exists_index(&self, index_name: &String) -> (r: bool)
        ensures
            r == self.spec_has_index(index_name@),
    {
        match self.position_of(index_name) {
            Option::Some(_) => true,
            Option::None => false,
        }
    }

    /// The position of the first index with this name.
    #[verifier::loop_isolation(false)]
    fn position_of(&self, index_name: &String) -> (r: Option<usize>)
        ensures
            match r {
                Option::Some(k) => k < self.indices@.len() && self.indices@[k as int].name@
                    == index_name@ && lookup_index(self.indices@, index_name@) == Option::Some(
                    self.indices@[k as int].docs@,
                ) && (forall|j: int| 0 <= j < k ==> self.indices@[j].name@ != index_name@),
                Option::None => lookup_index(self.indices@, index_name@) is None,
            },
    {
        let ghost s = self.indices@;
        let mut k: usize = 0;
        proof {
            assert(s.subrange(0, s.len() as int) =~= s);
        }
        while k < self.indices.len()
            invariant
                0 <= k <= s.len(),
                forall|j: int| 0 <= j < k ==> s[j].name@ != index_name@,
                lookup_index(s, index_name@) == lookup_index(
                    s.subrange(k as int, s.len() as int),
                    index_name@,
                ),
            decreases s.len() - k,
        {
            let ghost rest = s.subrange(k as int, s.len() as int);
            proof {
                assert(rest[0] == s[k as int]);
                assert(rest.drop_first() =~= s.subrange(k + 1, s.len() as int));
            }
            if crate::text::str_eq(&self.indices[k].name, index_name.as_str()) {
                return Option::Some(k);
            }
            k = k + 1;
        }
        proof {
            assert(s.subrange(s.len() as int, s.len() as int) =~= Seq::<StoredIndex>::empty());
        }
        Option::None
    }

    /// Idempotent index creation: a no-op when the index exists, else a new
    /// empty index with the document's mapping.
    pub fn create_index_definition<T: IndexDocument>(&mut self, doc: &T) -> (r: Result<
        bool,
        ServiceError,
    >)
        ensures
            r is Ok,
            final(self).spec_has_index(doc.spec_index()),
            forall|n: Seq<char>|
                #[trigger] final(self).spec_has_index(n) == (old(self).spec_has_index(n) || n
                    == doc.spec_index()),
            forall|n: Seq<char>, id: Seq<char>|
                #[trigger] final(self).spec_lookup(n, id) == old(self).spec_lookup(n, id),
    {
        let name = doc.index_name();
        match self.position_of(&name) {
            Option::Some(_) => {
            },
            Option::None => {
                let ghost olds = self.indices@;
                let created = StoredIndex { name, mapping: doc.mapping(), docs: Vec::new() };
                self.indices.push(created);
                proof {
                    lemma_lookup_index_push(olds, self.indices@[olds.len() as int]);
                }
            },
        }
        Result::Ok(true)
    }

    /// Upsert: ensure the index, drop any same-id document, store the
    /// payload.  The replacement is wholesale: after the call exactly the
    /// new payload stands at `(index, id)`, every other slot is unchanged.
    pub fn create<T: IndexDocument>(&mut self, doc: &T) -> (r: Result<bool, ServiceError>)
        requires
            doc.id_ready(),
        ensures
            r is Ok,
            final(self).spec_lookup(doc.spec_index(), doc.spec_id()) == Option::Some(
                doc.spec_data(),
            ),
            forall|id2: Seq<char>|
                id2 != doc.spec_id() ==> #[trigger] final(self).spec_lookup(doc.spec_index(), id2)
                    == old(self).spec_lookup(doc.spec_index(), id2),
            forall|n: Seq<char>, id2: Seq<char>|
                n != doc.spec_index() ==> #[trigger] final(self).spec_lookup(n, id2) == old(
                    self,
                ).spec_lookup(n, id2),
            forall|n: Seq<char>|
                #[trigger] final(self).spec_has_index(n) == (old(self).spec_has_index(n) || n
                    == doc.spec_index()),
    {
        let _ensured = self.create_index_definition(doc);
        let name = doc.index_name();
        let k = match self.position_of(&name) {
            Option::Some(k) => k,
            Option::None => {
                return Result::Err(
                    ServiceError::Backend(500u16, "Index disappeared".to_owned()),
                );
            },
        };
        let ghost mid = *self;
        let mut entry = self.indices.remove(k);
        let ghost olddocs = entry.docs@;
        let kept = retain_other_ids(entry.docs, doc.id());
        let mut docs = kept;
        let ghost keptview = docs@;
        docs.push((doc.id(), doc.data()));
        let ghost newdocs = docs@;
        entry.docs = docs;
        self.indices.insert(k, entry);
        proof {
            assert(olddocs == mid.indices@[k as int].docs@);
            assert(self.indices@ =~= mid.indices@.update(
                k as int,
                self.indices@[k as int],
            ));
            assert(self.indices@[k as int].name@ == doc.spec_index());
            assert(self.indices@[k as int].docs@ == newdocs);
            assert(newdocs.drop_last() =~= keptview);
            assert(newdocs.last().0@ == doc.spec_id());
            assert(newdocs.last().1.model() == doc.spec_data());
            lemma_lookup_doc_after_upsert(
                olddocs,
                newdocs,
                doc.spec_id(),
                doc.spec_data(),
            );
            lemma_lookup_index_update(mid.indices@, self.indices@, k as int);
            assert(lookup_index(self.indices@, doc.spec_index()) == Option::Some(newdocs));
            assert(lookup_index(mid.indices@, doc.spec_index()) == Option::Some(olddocs));
            assert forall|id2: Seq<char>|
                id2 != doc.spec_id() implies #[trigger] self.spec_lookup(doc.spec_index(), id2)
                == mid.spec_lookup(doc.spec_index(), id2) by {
                assert(lookup_doc(newdocs, id2) == lookup_doc(olddocs, id2));
            }
            assert forall|n: Seq<char>, id2: Seq<char>|
                n != doc.spec_index() implies #[trigger] self.spec_lookup(n, id2)
                == mid.spec_lookup(n, id2) by {
                assert(lookup_index(self.indices@, n) == lookup_index(mid.indices@, n));
            }
            assert(forall|n: Seq<char>, id2: Seq<char>|
                #[trigger] mid.spec_lookup(n, id2) == old(self).spec_lookup(n, id2));
            assert forall|n: Seq<char>| #[trigger]
                self.spec_has_index(n) == (old(self).spec_has_index(n) || n
                == doc.spec_index()) by {
                if n == doc.spec_index() {
                } else {
                    assert(lookup_index(self.indices@, n) == lookup_index(mid.indices@, n));
                    assert(mid.spec_has_index(n) == (old(self).spec_has_index(n) || n
                        == doc.spec_index()));
                }
            }
        }
        Result::Ok(true)
    }

    /// Delete by id: a missing document, or a missing index, is success.
    pub fn delete<T: IndexDocument>(&mut self, doc: &T) -> (r: Result<bool, ServiceError>)
        requires
            doc.id_ready(),
        ensures
            r is Ok,
            final(self).spec_lookup(doc.spec_index(), doc.spec_id()) is None,
            forall|id2: Seq<char>|
                id2 != doc.spec_id() ==> #[trigger] final(self).spec_lookup(doc.spec_index(), id2)
                    == old(self).spec_lookup(doc.spec_index(), id2),
            forall|n: Seq<char>, id2: Seq<char>|
                n != doc.spec_index() ==> #[trigger] final(self).spec_lookup(n, id2) == old(
                    self,
                ).spec_lookup(n, id2),
            forall|n: Seq<char>|
                #[trigger] final(self).spec_has_index(n) == old(self).spec_has_index(n),
    {
        let name = doc.index_name();
        let k = match self.position_of(&name) {
            Option::Some(k) => k,
            Option::None => {
                return Result::Ok(true);
            },
        };
        let ghost mid = *self;
        let mut entry = self.indices.remove(k);
        let kept = retain_other_ids(entry.docs, doc.id());
        let ghost newdocs = kept@;
        entry.docs = kept;
        self.indices.insert(k, entry);
        proof {
            assert(self.indices@ =~= mid.indices@.update(
                k as int,
                self.indices@[k as int],
            ));
            assert(self.indices@[k as int].name@ == doc.spec_index());
            assert(self.indices@[k as int].docs@ == newdocs);
            lemma_lookup_doc_after_retain(
                mid.indices@[k as int].docs@,
                newdocs,
                doc.spec_id(),
            );
            lemma_lookup_index_update(mid.indices@, self.indices@, k as int);
        }
        Result::Ok(true)
    }

    /// Returns the stored payload at the document's `(index, id)`, or a
    /// not-found error.
    pub fn get_by_id<T: IndexDocument>(&self, doc: &T) -> (r: Result<Value, ServiceError>)
        requires
            doc.id_ready(),
        ensures
            match r {
                Result::Ok(v) => self.spec_lookup(doc.spec_index(), doc.spec_id())
                    == Option::Some(v.model()),
                Result::Err(e) => self.spec_lookup(doc.spec_index(), doc.spec_id()) is None && (
                e is NotFound || e is Backend),
            },
    {
        let name = doc.index_name();
        let k = match self.position_of(&name) {
            Option::Some(k) => k,
            Option::None => {
                return Result::Err(
                    ServiceError::Backend(404u16, "Error finding record by ID".to_owned()),
                );
            },
        };
        let id = doc.id();
        match find_doc(&self.indices[k].docs, &id) {
            Option::Some(j) => {
                let payload = self.indices[k].docs[j].1.duplicate();
                Result::Ok(payload)
            },
            Option::None => Result::Err(
                ServiceError::NotFound("Error finding record by ID".to_owned()),
            ),
        }
    }

    /// A page of every stored payload of the index, in insertion order;
    /// a missing index fails as the transport would.
    pub fn search_all(&self, index_name: &String, from: usize, size: usize) -> (r: Result<
        Vec<Value>,
        ServiceError,
    >)
        ensures
            match r {
                Result::Ok(vs) => self.spec_has_index(index_name@) && {
                    let docs = lookup_index(self.indices@, index_name@)->Some_0;
                    let lo = if from as int <= docs.len() as int {
                        from as int
                    } else {
                        docs.len() as int
                    };
                    let hi = if lo + size as int <= docs.len() as int {
                        lo + size as int
                    } else {
                        docs.len() as int
                    };
                    vs@.len() == hi - lo && forall|j: int|
                        0 <= j < vs@.len() ==> #[trigger] vs@[j].model() == docs[lo + j].1.model()
                },
                Result::Err(_) => !self.spec_has_index(index_name@),
            },
    {
        let k = match self.position_of(index_name) {
            Option::Some(k) => k,
            Option::None => {
                return Result::Err(
                    ServiceError::Backend(404u16, "Error finding record".to_owned()),
                );
            },
        };
        let docs = &self.indices[k].docs;
        let n = docs.len();
        let lo = if from <= n {
            from
        } else {
            n
        };
        let hi = if size <= n - lo {
            lo + size
        } else {
            n
        };
        let mut out: Vec<Value> = Vec::new();
        let mut j: usize = lo;
        while j < hi
            invariant
                lo <= j <= hi <= docs@.len(),
                out@.len() == j - lo,
                forall|t: int|
                    0 <= t < out@.len() ==> #[trigger] out@[t].model() == docs@[lo + t].1.model(),
            decreases hi - j,
        {
            out.push(docs[j].1.duplicate());
            j = j + 1;
        }
        Result::Ok(out)
    }
}

/// The position of the first document with this id.
#[verifier::loop_isolation(false)]
fn find_doc(docs: &Vec<(String, Value)>, id: &String) -> (r: Option<usize>)
    ensures
        match r {
            Option::Some(j) => j < docs@.len() && lookup_doc(docs@, id@) == Option::Some(
                docs@[j as int].1.model(),
            ),
            Option::None => lookup_doc(docs@, id@) is None,
        },
{
    let ghost s = docs@;
    let mut j: usize = 0;
    proof {
        assert(s.subrange(0, s.len() as int) =~= s);
    }
    while j < docs.len()
        invariant
            0 <= j <= s.len(),
            lookup_doc(s, id@) == lookup_doc(s.subrange(j as int, s.len() as int), id@),
        decreases s.len() - j,
    {
        let ghost rest = s.subrange(j as int, s.len() as int);
        proof {
            assert(rest[0] == s[j as int]);
            assert(rest.drop_first() =~= s.subrange(j + 1, s.len() as int));
        }
        if crate::text::str_eq(&docs[j].0, id.as_str()) {
            return Option::Some(j);
        }
        j = j + 1;
    }
    proof {
        assert(s.subrange(s.len() as int, s.len() as int) =~= Seq::<(String, Value)>::empty());
    }
    Option::None
}

/// Documents whose id is not in this sequence carry this id.
pub open spec fn spec_retain(docs: Seq<(String, Value)>, id: Seq<char>) -> Seq<(String, Value)>
    decreases docs,
{
    if docs.len() == 0 {
        Seq::empty()
    } else if docs[0].0@ == id {
        spec_retain(docs.drop_first(), id)
    } else {
        seq![docs[0]] + spec_retain(docs.drop_first(), id)
    }
}

/// Keeps the documents whose id differs from the given one.
#[verifier::loop_isolation(false)]
fn retain_other_ids(docs: Vec<(String, Value)>, id: String) -> (r: Vec<(String, Value)>)
    ensures
        r@ == spec_retain(docs@, id@),
{
    let ghost orig = docs@;
    let mut docs = docs;
    let mut out: Vec<(String, Value)> = Vec::new();
    proof {
        assert(out@ + spec_retain(orig, id@) =~= spec_retain(orig, id@));
    }
    while docs.len() > 0
        invariant
            spec_retain(orig, id@) == out@ + spec_retain(docs@, id@),
        decreases docs@.len(),
    {
        let ghost olddocs = docs@;
        let pair = docs.remove(0);
        proof {
            assert(olddocs[0] == pair);
            assert(olddocs.drop_first() =~= docs@);
        }
        let keep = !crate::text::str_eq(&pair.0, id.as_str());
        if keep {
            let ghost before = out@;
            out.push(pair);
            proof {
                assert(out@ =~= before + seq![olddocs[0]]);
                assert(before + (seq![olddocs[0]] + spec_retain(docs@, id@)) =~= before + seq![
                    olddocs[0],
                ] + spec_retain(docs@, id@));
            }
        }
    }
    proof {
        assert(docs@.len() == 0);
        assert(spec_retain(docs@, id@) =~= Seq::<(String, Value)>::empty());
        assert(spec_retain(orig, id@) =~= out@);
    }
    out
}

/// Retention removes the given id and preserves every other id's first
/// payload.
proof fn lemma_lookup_doc_after_retain(olddocs: Seq<(String, Value)>, newdocs: Seq<(String, Value)>, id: Seq<char>)
    requires
        newdocs == spec_retain(olddocs, id),
    ensures
        lookup_doc(newdocs, id) is None,
        forall|id2: Seq<char>|
            id2 != id ==> #[trigger] lookup_doc(newdocs, id2) == lookup_doc(olddocs, id2),
    decreases olddocs,
{
    if olddocs.len() == 0 {
    } else {
        lemma_lookup_doc_after_retain(olddocs.drop_first(), spec_retain(olddocs.drop_first(), id), id);
        if olddocs[0].0@ == id {
        } else {
            let r = seq![olddocs[0]] + spec_retain(olddocs.drop_first(), id);
            assert(r[0] == olddocs[0]);
            assert(r.drop_first() =~= spec_retain(olddocs.drop_first(), id));
        }
    }
}

/// After an upsert the new payload stands at the id, and every other id's
/// first payload is unchanged.
proof fn lemma_lookup_doc_after_upsert(
    olddocs: Seq<(String, Value)>,
    newdocs: Seq<(String, Value)>,
    id: Seq<char>,
    payload: ValModel,
)
    requires
        newdocs.len() > 0,
        newdocs.drop_last() == spec_retain(olddocs, id),
        newdocs.last().0@ == id,
        newdocs.last().1.model() == payload,
    ensures
        lookup_doc(newdocs, id) == Option::Some(payload),
        forall|id2: Seq<char>|
            id2 != id ==> #[trigger] lookup_doc(newdocs, id2) == lookup_doc(olddocs, id2),
{
    lemma_lookup_doc_after_retain(olddocs, spec_retain(olddocs, id), id);
    lemma_lookup_doc_push(spec_retain(olddocs, id), newdocs.last());
    assert(newdocs =~= spec_retain(olddocs, id).push(newdocs.last()));
}

/// Appending a document affects only lookups of its id, and those only when
/// the id was absent.
proof fn lemma_lookup_doc_push(docs: Seq<(String, Value)>, entry: (String, Value))
    ensures
        forall|id2: Seq<char>|
            #[trigger] lookup_doc(docs.push(entry), id2) == (match lookup_doc(docs, id2) {
                Option::Some(p) => Option::Some(p),
                Option::None => if entry.0@ == id2 {
                    Option::Some(entry.1.model())
                } else {
                    Option::None
                },
            }),
    decreases docs,
{
    if docs.len() == 0 {
        assert forall|id2: Seq<char>|
            #[trigger] lookup_doc(docs.push(entry), id2) == (match lookup_doc(docs, id2) {
                Option::Some(p) => Option::Some(p),
                Option::None => if entry.0@ == id2 {
                    Option::Some(entry.1.model())
                } else {
                    Option::None
                },
            }) by {
            assert(docs.push(entry)[0] == entry);
            assert(docs.push(entry).drop_first() =~= Seq::<(String, Value)>::empty());
            assert(lookup_doc(docs.push(entry).drop_first(), id2) is None);
        }
    } else {
        lemma_lookup_doc_push(docs.drop_first(), entry);
        assert forall|id2: Seq<char>|
            #[trigger] lookup_doc(docs.push(entry), id2) == (match lookup_doc(docs, id2) {
                Option::Some(p) => Option::Some(p),
                Option::None => if entry.0@ == id2 {
                    Option::Some(entry.1.model())
                } else {
                    Option::None
                },
            }) by {
            assert(docs.push(entry)[0] == docs[0]);
            assert(docs.push(entry).drop_first() =~= docs.drop_first().push(entry));
            assert(lookup_doc(docs.drop_first().push(entry), id2) == (match lookup_doc(
                docs.drop_first(),
                id2,
            ) {
                Option::Some(p) => Option::Some(p),
                Option::None => if entry.0@ == id2 {
                    Option::Some(entry.1.model())
                } else {
                    Option::None
                },
            }));
        }
    }
}

/// Appending a fresh index leaves every other name's lookup unchanged.
proof fn lemma_lookup_index_push(indices: Seq<StoredIndex>, entry: StoredIndex)
    ensures
        forall|n: Seq<char>|
            #[trigger] lookup_index(indices.push(entry), n) == (match lookup_index(indices, n) {
                Option::Some(d) => Option::Some(d),
                Option::None => if entry.name@ == n {
                    Option::Some(entry.docs@)
                } else {
                    Option::None
                },
            }),
    decreases indices,
{
    if indices.len() == 0 {
        assert forall|n: Seq<char>|
            #[trigger] lookup_index(indices.push(entry), n) == (match lookup_index(indices, n) {
                Option::Some(d) => Option::Some(d),
                Option::None => if entry.name@ == n {
                    Option::Some(entry.docs@)
                } else {
                    Option::None
                },
            }) by {
            assert(indices.push(entry)[0] == entry);
            assert(indices.push(entry).drop_first() =~= Seq::<StoredIndex>::empty());
            assert(lookup_index(indices.push(entry).drop_first(), n) is None);
        }
    } else {
        lemma_lookup_index_push(indices.drop_first(), entry);
        assert forall|n: Seq<char>|
            #[trigger] lookup_index(indices.push(entry), n) == (match lookup_index(indices, n) {
                Option::Some(d) => Option::Some(d),
                Option::None => if entry.name@ == n {
                    Option::Some(entry.docs@)
                } else {
                    Option::None
                },
            }) by {
            assert(indices.push(entry)[0] == indices[0]);
            assert(indices.push(entry).drop_first() =~= indices.drop_first().push(entry));
            assert(lookup_index(indices.drop_first().push(entry), n) == (match lookup_index(
                indices.drop_first(),
                n,
            ) {
                Option::Some(d) => Option::Some(d),
                Option::None => if entry.name@ == n {
                    Option::Some(entry.docs@)
                } else {
                    Option::None
                },
            }));
        }
    }
}

/// Replacing the documents of the first index with a name changes that
/// name's lookup to the new documents and no other name's lookup, provided
/// the position replaced is the first occurrence of the name.
proof fn lemma_lookup_index_update(olds: Seq<StoredIndex>, news: Seq<StoredIndex>, k: int)
    requires
        0 <= k < olds.len(),
        news.len() == olds.len(),
        forall|j: int| 0 <= j < olds.len() && j != k ==> news[j] == olds[j],
        news[k].name@ == olds[k].name@,
        forall|j: int| 0 <= j < k ==> olds[j].name@ != olds[k].name@,
    ensures
        lookup_index(news, olds[k].name@) == Option::Some(news[k].docs@),
        forall|n: Seq<char>|
            n != olds[k].name@ ==> #[trigger] lookup_index(news, n) == lookup_index(olds, n),
    decreases olds,
{
    if k == 0 {
        assert(news[0].name@ == olds[0].name@);
        assert forall|n: Seq<char>|
            n != olds[k].name@ implies #[trigger] lookup_index(news, n) == lookup_index(
            olds,
            n,
        ) by {
            assert(news.drop_first() =~= olds.drop_first());
        }
    } else {
        assert(forall|j: int|
            0 <= j < olds.drop_first().len() && j != k - 1 ==> olds.drop_first()[j] == olds[j + 1]
                && news.drop_first()[j] == news[j + 1]);
        assert(olds.drop_first()[k - 1] == olds[k]);
        assert(news.drop_first()[k - 1] == news[k]);
        lemma_lookup_index_update(olds.drop_first(), news.drop_first(), k - 1);
        assert(news[0] == olds[0]);
        assert(lookup_index(news.drop_first(), olds[k].name@) == Option::Some(news[k].docs@));
        assert(olds[0].name@ != olds[k].name@);
        assert forall|n: Seq<char>|
            n != olds[k].name@ implies #[trigger] lookup_index(news, n) == lookup_index(
            olds,
            n,
        ) by {
            if olds[0].name@ == n {
            } else {
                assert(lookup_index(news.drop_first(), n) == lookup_index(olds.drop_first(), n));
            }
        }
    }
}

} // verus!
