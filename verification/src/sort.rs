//! Stable sorting by an integer sequence key and by a textual name key.
//!
//! Query responses present tabs, fields, parameters and menu nodes sorted by
//! `sequence` ascending, and tab processes sorted by name; records with equal
//! keys keep their input order.  [`spec_sort`] is the stable insertion sort
//! on the models; [`lemma_sort_stable`] states the three facts a caller
//! needs: the result is sorted, it is a permutation of the input, and the
//! subsequence of records with any fixed key is unchanged.

use vstd::prelude::*;
use crate::text::lex_leq;
use vstd::multiset::Multiset;

verus! {

broadcast use vstd::seq_lib::group_to_multiset_ensures, vstd::multiset::group_multiset_axioms;

/// A record ordered by an integer key.
pub trait SortKey: Sized {
    /// The key the record is ordered by.
    spec fn key(&self) -> int;
}

/// The sequence is ordered by key, ascending.
pub open spec fn sorted_by_key<T: SortKey>(s: Seq<T>) -> bool {
    forall|i: int, j: int| 0 <= i < j < s.len() ==> s[i].key() <= s[j].key()
}

/// Insertion of one record after every record with a key less than or equal
/// to its own.
pub open spec fn insert_sorted<T: SortKey>(s: Seq<T>, x: T) -> Seq<T>
    decreases s,
{
    if s.len() == 0 {
        seq![x]
    } else if s[0].key() <= x.key() {
        seq![s[0]] + insert_sorted(s.drop_first(), x)
    } else {
        seq![x] + s
    }
}

/// Stable insertion sort by key.
pub open spec fn spec_sort<T: SortKey>(s: Seq<T>) -> Seq<T>
    decreases s,
{
    if s.len() == 0 {
        s
    } else {
        insert_sorted(spec_sort(s.drop_last()), s.last())
    }
}

/// The subsequence of records with the given key, in input order.
pub open spec fn with_key<T: SortKey>(s: Seq<T>, k: int) -> Seq<T>
    decreases s,
{
    if s.len() == 0 {
        Seq::empty()
    } else if s[0].key() == k {
        seq![s[0]] + with_key(s.drop_first(), k)
    } else {
        with_key(s.drop_first(), k)
    }
}

/// In a sorted sequence whose head key is above `k`, no record has key `k`.
proof fn lemma_with_key_above<T: SortKey>(s: Seq<T>, k: int)
    requires
        sorted_by_key(s),
        s.len() > 0 ==> s[0].key() > k,
    ensures
        with_key(s, k) == Seq::<T>::empty(),
    decreases s,
{
    if s.len() > 0 {
        assert(forall|i: int| 0 <= i < s.drop_first().len() ==> s.drop_first()[i] == s[i + 1]);
        lemma_with_key_above(s.drop_first(), k);
    }
}

/// Appending a record extends the equal-key subsequence at its end.
proof fn lemma_with_key_push<T: SortKey>(s: Seq<T>, x: T, k: int)
    ensures
        x.key() == k ==> with_key(s.push(x), k) == with_key(s, k).push(x),
        x.key() != k ==> with_key(s.push(x), k) == with_key(s, k),
    decreases s,
{
    if s.len() == 0 {
        assert(s.push(x).drop_first() =~= Seq::<T>::empty());
        assert(s.push(x)[0] == x);
        assert(with_key(Seq::<T>::empty(), k) == Seq::<T>::empty());
        if x.key() == k {
            assert(with_key(s.push(x), k) =~= with_key(s, k).push(x));
        }
    } else {
        assert(s.push(x).drop_first() =~= s.drop_first().push(x));
        assert(s.push(x)[0] == s[0]);
        lemma_with_key_push(s.drop_first(), x, k);
        if x.key() == k {
            if s[0].key() == k {
                assert(seq![s[0]] + with_key(s.drop_first(), k).push(x) =~= (seq![s[0]] + with_key(
                    s.drop_first(),
                    k,
                )).push(x));
            }
        }
    }
}

/// The shape of `insert_sorted` at its insertion position.
pub proof fn lemma_insert_sorted_at<T: SortKey>(s: Seq<T>, x: T, pos: int)
    requires
        sorted_by_key(s),
        0 <= pos <= s.len(),
        forall|j: int| 0 <= j < pos ==> s[j].key() <= x.key(),
        pos < s.len() ==> s[pos].key() > x.key(),
    ensures
        insert_sorted(s, x) == s.subrange(0, pos) + seq![x] + s.subrange(pos, s.len() as int),
    decreases s,
{
    if s.len() == 0 {
        assert(insert_sorted(s, x) =~= s.subrange(0, pos) + seq![x] + s.subrange(
            pos,
            s.len() as int,
        ));
    } else if s[0].key() <= x.key() {
        assert(pos > 0);
        assert(forall|i: int| 0 <= i < s.drop_first().len() ==> s.drop_first()[i] == s[i + 1]);
        lemma_insert_sorted_at(s.drop_first(), x, pos - 1);
        assert(s.drop_first().subrange(0, pos - 1) =~= s.subrange(1, pos));
        assert(s.drop_first().subrange(pos - 1, s.drop_first().len() as int) =~= s.subrange(
            pos,
            s.len() as int,
        ));
        assert(seq![s[0]] + (s.subrange(1, pos) + seq![x] + s.subrange(pos, s.len() as int)) =~= s
            .subrange(0, pos) + seq![x] + s.subrange(pos, s.len() as int));
    } else {
        assert(pos == 0);
        assert(seq![x] + s =~= s.subrange(0, 0) + seq![x] + s.subrange(0, s.len() as int));
    }
}

/// Inserting preserves order, adds the record to the contents, and either
/// appends it to the equal-key subsequence or leaves that subsequence as it
/// was.
pub proof fn lemma_insert_sorted_props<T: SortKey>(s: Seq<T>, x: T)
    requires
        sorted_by_key(s),
    ensures
        sorted_by_key(insert_sorted(s, x)),
        insert_sorted(s, x).to_multiset() == s.to_multiset().insert(x),
        insert_sorted(s, x).len() == s.len() + 1,
        forall|k: int|
            #[trigger] with_key(insert_sorted(s, x), k) == if x.key() == k {
                with_key(s, k).push(x)
            } else {
                with_key(s, k)
            },
    decreases s,
{
    if s.len() == 0 {
        assert(seq![x] =~= s.push(x));
        assert(s.push(x).to_multiset() =~= s.to_multiset().insert(x));
        assert forall|k: int|
            #[trigger] with_key(insert_sorted(s, x), k) == if x.key() == k {
                with_key(s, k).push(x)
            } else {
                with_key(s, k)
            } by {
            assert(seq![x].drop_first() =~= Seq::<T>::empty());
            assert(seq![x][0] == x);
            assert(with_key(Seq::<T>::empty(), k) == Seq::<T>::empty());
            if x.key() == k {
                assert(with_key(insert_sorted(s, x), k) =~= with_key(s, k).push(x));
            }
        }
    } else if s[0].key() <= x.key() {
        let t = s.drop_first();
        assert(forall|i: int| 0 <= i < t.len() ==> t[i] == s[i + 1]);
        lemma_insert_sorted_props(t, x);
        let u = insert_sorted(t, x);
        let r = seq![s[0]] + u;
        assert(r == insert_sorted(s, x));
        // order
        assert forall|i: int, j: int| 0 <= i < j < r.len() implies r[i].key() <= r[j].key() by {
            if i == 0 {
                // every record of u is a record of t or x itself
                assert(u.to_multiset().count(r[j]) > 0);
                if r[j] == x {
                } else {
                    assert(t.to_multiset().insert(x).count(r[j]) > 0);
                    assert(t.to_multiset().count(r[j]) > 0);
                    assert(t.contains(r[j]));
                }
            } else {
                assert(r[i] == u[i - 1] && r[j] == u[j - 1]);
            }
        }
        // contents
        assert(r.to_multiset() =~= s.to_multiset().insert(x)) by {
            vstd::seq_lib::lemma_multiset_commutative(seq![s[0]], u);
            vstd::seq_lib::lemma_multiset_commutative(seq![s[0]], t);
            assert(s =~= seq![s[0]] + t);
            assert(seq![s[0]] =~= Seq::<T>::empty().push(s[0]));
            assert(Seq::<T>::empty().push(s[0]).to_multiset() =~= Seq::<T>::empty().to_multiset().insert(s[0]));
            assert(Seq::<T>::empty().to_multiset() =~= Multiset::<T>::empty());
        }
        // equal-key subsequences
        assert forall|k: int|
            #[trigger] with_key(insert_sorted(s, x), k) == if x.key() == k {
                with_key(s, k).push(x)
            } else {
                with_key(s, k)
            } by {
            assert(r.drop_first() =~= u);
            assert(r[0] == s[0]);
            assert(with_key(insert_sorted(t, x), k) == if x.key() == k {
                with_key(t, k).push(x)
            } else {
                with_key(t, k)
            });
            if s[0].key() == k {
                if x.key() == k {
                    assert(seq![s[0]] + with_key(t, k).push(x) =~= (seq![s[0]] + with_key(
                        t,
                        k,
                    )).push(x));
                }
            }
        }
    } else {
        let r = seq![x] + s;
        assert(r == insert_sorted(s, x));
        assert(forall|i: int| 0 <= i < r.drop_first().len() ==> r.drop_first()[i] == s[i]);
        assert forall|i: int, j: int| 0 <= i < j < r.len() implies r[i].key() <= r[j].key() by {
            if i == 0 {
                assert(r[j] == s[j - 1]);
                if j > 1 {
                    assert(s[0].key() <= s[j - 1].key());
                }
            }
        }
        assert(r.to_multiset() =~= s.to_multiset().insert(x)) by {
            vstd::seq_lib::lemma_multiset_commutative(seq![x], s);
            assert(seq![x] =~= Seq::<T>::empty().push(x));
            assert(Seq::<T>::empty().push(x).to_multiset() =~= Seq::<T>::empty().to_multiset().insert(x));
            assert(Seq::<T>::empty().to_multiset() =~= Multiset::<T>::empty());
        }
        assert forall|k: int|
            #[trigger] with_key(insert_sorted(s, x), k) == if x.key() == k {
                with_key(s, k).push(x)
            } else {
                with_key(s, k)
            } by {
            assert(r.drop_first() =~= s);
            assert(r[0] == x);
            if x.key() == k {
                assert(s.len() > 0 && s[0].key() > k);
                lemma_with_key_above(s, k);
                assert(seq![x] + with_key(s, k) =~= with_key(s, k).push(x));
            }
        }
    }
}

/// The stable-sort law: sorting orders the records by key, permutes the
/// input, and keeps the subsequence of records with any fixed key exactly as
/// it was.
pub proof fn lemma_sort_stable<T: SortKey>(s: Seq<T>, k: int)
    ensures
        sorted_by_key(spec_sort(s)),
        spec_sort(s).to_multiset() == s.to_multiset(),
        spec_sort(s).len() == s.len(),
        with_key(spec_sort(s), k) == with_key(s, k),
    decreases s,
{
    if s.len() > 0 {
        let p = s.drop_last();
        lemma_sort_stable(p, k);
        lemma_insert_sorted_props(spec_sort(p), s.last());
        lemma_with_key_push(p, s.last(), k);
        assert(p.push(s.last()) =~= s);
        assert(p.push(s.last()).to_multiset() =~= p.to_multiset().insert(s.last()));
    }
}

// --- ordering by a textual name key -----------------------------------------

/// A record ordered by a textual key.
pub trait NameKey: Sized {
    /// The name the record is ordered by; a missing name reads as empty.
    spec fn name_key(&self) -> Seq<char>;
}

/// The sequence is ordered by name, ascending in [`lex_leq`].
pub open spec fn sorted_by_name<T: NameKey>(s: Seq<T>) -> bool {
    forall|i: int, j: int| 0 <= i < j < s.len() ==> lex_leq(s[i].name_key(), s[j].name_key())
}

/// Insertion of one record after every record whose name does not exceed its
/// own.
pub open spec fn insert_sorted_name<T: NameKey>(s: Seq<T>, x: T) -> Seq<T>
    decreases s,
{
    if s.len() == 0 {
        seq![x]
    } else if lex_leq(s[0].name_key(), x.name_key()) {
        seq![s[0]] + insert_sorted_name(s.drop_first(), x)
    } else {
        seq![x] + s
    }
}

/// Stable insertion sort by name.
pub open spec fn spec_sort_by_name<T: NameKey>(s: Seq<T>) -> Seq<T>
    decreases s,
{
    if s.len() == 0 {
        s
    } else {
        insert_sorted_name(spec_sort_by_name(s.drop_last()), s.last())
    }
}

/// `lex_leq` is total.
pub proof fn lemma_lex_total(a: Seq<char>, b: Seq<char>)
    ensures
        lex_leq(a, b) || lex_leq(b, a),
    decreases a,
{
    if a.len() > 0 && b.len() > 0 {
        if a[0] == b[0] {
            lemma_lex_total(a.drop_first(), b.drop_first());
        }
    }
}

/// `lex_leq` is transitive.
pub proof fn lemma_lex_trans(a: Seq<char>, b: Seq<char>, c: Seq<char>)
    requires
        lex_leq(a, b),
        lex_leq(b, c),
    ensures
        lex_leq(a, c),
    decreases a,
{
    if a.len() > 0 && b.len() > 0 && c.len() > 0 {
        if a[0] == b[0] && b[0] == c[0] {
            lemma_lex_trans(a.drop_first(), b.drop_first(), c.drop_first());
        }
    }
}

/// `lex_leq` is reflexive.
pub proof fn lemma_lex_refl(a: Seq<char>)
    ensures
        lex_leq(a, a),
    decreases a,
{
    if a.len() > 0 {
        lemma_lex_refl(a.drop_first());
    }
}

/// Inserting by name preserves order and adds the record to the contents.
pub proof fn lemma_insert_sorted_name_props<T: NameKey>(s: Seq<T>, x: T)
    requires
        sorted_by_name(s),
    ensures
        sorted_by_name(insert_sorted_name(s, x)),
        insert_sorted_name(s, x).to_multiset() == s.to_multiset().insert(x),
        insert_sorted_name(s, x).len() == s.len() + 1,
    decreases s,
{
    if s.len() == 0 {
        assert(seq![x] =~= s.push(x));
        assert(s.push(x).to_multiset() =~= s.to_multiset().insert(x));
    } else if lex_leq(s[0].name_key(), x.name_key()) {
        let t = s.drop_first();
        assert(forall|i: int| 0 <= i < t.len() ==> t[i] == s[i + 1]);
        lemma_insert_sorted_name_props(t, x);
        let u = insert_sorted_name(t, x);
        let r = seq![s[0]] + u;
        assert(r == insert_sorted_name(s, x));
        assert forall|i: int, j: int|
            0 <= i < j < r.len() implies lex_leq(r[i].name_key(), r[j].name_key()) by {
            if i == 0 {
                assert(u.to_multiset().count(r[j]) > 0);
                if r[j] == x {
                } else {
                    assert(t.to_multiset().insert(x).count(r[j]) > 0);
                    assert(t.to_multiset().count(r[j]) > 0);
                    assert(t.contains(r[j]));
                    let w = choose|w: int| 0 <= w < t.len() && t[w] == r[j];
                    assert(lex_leq(s[0].name_key(), s[w + 1].name_key()));
                }
            } else {
                assert(r[i] == u[i - 1] && r[j] == u[j - 1]);
            }
        }
        assert(r.to_multiset() =~= s.to_multiset().insert(x)) by {
            vstd::seq_lib::lemma_multiset_commutative(seq![s[0]], u);
            vstd::seq_lib::lemma_multiset_commutative(seq![s[0]], t);
            assert(s =~= seq![s[0]] + t);
            assert(seq![s[0]] =~= Seq::<T>::empty().push(s[0]));
            assert(Seq::<T>::empty().push(s[0]).to_multiset() =~= Seq::<T>::empty().to_multiset().insert(s[0]));
            assert(Seq::<T>::empty().to_multiset() =~= Multiset::<T>::empty());
        }
    } else {
        let r = seq![x] + s;
        assert(r == insert_sorted_name(s, x));
        lemma_lex_total(s[0].name_key(), x.name_key());
        assert forall|i: int, j: int|
            0 <= i < j < r.len() implies lex_leq(r[i].name_key(), r[j].name_key()) by {
            if i == 0 {
                assert(r[j] == s[j - 1]);
                if j > 1 {
                    assert(lex_leq(s[0].name_key(), s[j - 1].name_key()));
                    lemma_lex_trans(x.name_key(), s[0].name_key(), r[j].name_key());
                }
            }
        }
        assert(r.to_multiset() =~= s.to_multiset().insert(x)) by {
            vstd::seq_lib::lemma_multiset_commutative(seq![x], s);
            assert(seq![x] =~= Seq::<T>::empty().push(x));
            assert(Seq::<T>::empty().push(x).to_multiset() =~= Seq::<T>::empty().to_multiset().insert(x));
            assert(Seq::<T>::empty().to_multiset() =~= Multiset::<T>::empty());
        }
    }
}

/// The name-sort law: sorting orders the records by name and permutes the
/// input.
pub proof fn lemma_sort_by_name_props<T: NameKey>(s: Seq<T>)
    ensures
        sorted_by_name(spec_sort_by_name(s)),
        spec_sort_by_name(s).to_multiset() == s.to_multiset(),
        spec_sort_by_name(s).len() == s.len(),
    decreases s,
{
    if s.len() > 0 {
        let p = s.drop_last();
        lemma_sort_by_name_props(p);
        lemma_insert_sorted_name_props(spec_sort_by_name(p), s.last());
        assert(p.push(s.last()) =~= s);
        assert(p.push(s.last()).to_multiset() =~= p.to_multiset().insert(s.last()));
    }
}

/// The shape of `insert_sorted_name` at its insertion position.
pub proof fn lemma_insert_sorted_name_at<T: NameKey>(s: Seq<T>, x: T, pos: int)
    requires
        sorted_by_name(s),
        0 <= pos <= s.len(),
        forall|j: int| 0 <= j < pos ==> lex_leq(s[j].name_key(), x.name_key()),
        pos < s.len() ==> !lex_leq(s[pos].name_key(), x.name_key()),
    ensures
        insert_sorted_name(s, x) == s.subrange(0, pos) + seq![x] + s.subrange(pos, s.len() as int),
    decreases s,
{
    if s.len() == 0 {
        assert(insert_sorted_name(s, x) =~= s.subrange(0, pos) + seq![x] + s.subrange(
            pos,
            s.len() as int,
        ));
    } else if lex_leq(s[0].name_key(), x.name_key()) {
        assert(pos > 0);
        assert(forall|i: int| 0 <= i < s.drop_first().len() ==> s.drop_first()[i] == s[i + 1]);
        lemma_insert_sorted_name_at(s.drop_first(), x, pos - 1);
        assert(s.drop_first().subrange(0, pos - 1) =~= s.subrange(1, pos));
        assert(s.drop_first().subrange(pos - 1, s.drop_first().len() as int) =~= s.subrange(
            pos,
            s.len() as int,
        ));
        assert(seq![s[0]] + (s.subrange(1, pos) + seq![x] + s.subrange(pos, s.len() as int)) =~= s
            .subrange(0, pos) + seq![x] + s.subrange(pos, s.len() as int));
    } else {
        assert(pos == 0);
        assert(seq![x] + s =~= s.subrange(0, 0) + seq![x] + s.subrange(0, s.len() as int));
    }
}

} // verus!
