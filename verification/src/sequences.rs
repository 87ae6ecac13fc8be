//! Searching and filtering sequences: the first entry that satisfies a
//! predicate, and what filtering by a predicate keeps.

use vstd::prelude::*;

verus! {

/// The index of the first entry that satisfies `pred`, or the length if
/// none does.
pub open spec fn first_index<T>(s: Seq<T>, pred: spec_fn(T) -> bool) -> int
    decreases s.len(),
{
    if s.len() == 0 {
        0
    } else if pred(s[0]) {
        0
    } else {
        1 + first_index(s.drop_first(), pred)
    }
}

/// `first_index` lies within the sequence, no entry before it satisfies
/// the predicate, and the entry at it, if there is one, does.
pub proof fn lemma_first_index<T>(s: Seq<T>, pred: spec_fn(T) -> bool)
    ensures
        0 <= first_index(s, pred) <= s.len(),
        forall|k: int| 0 <= k < first_index(s, pred) ==> !pred(#[trigger] s[k]),
        first_index(s, pred) < s.len() ==> pred(s[first_index(s, pred)]),
    decreases s.len(),
{
    if s.len() > 0 && !pred(s[0]) {
        let rest = s.drop_first();
        lemma_first_index(rest, pred);
        let p = first_index(rest, pred);
        assert forall|k: int| 0 <= k < p + 1 implies !pred(#[trigger] s[k]) by {
            if k > 0 {
                assert(s[k] == rest[k - 1]);
            }
        }
        if p < rest.len() {
            assert(s[p + 1] == rest[p]);
        }
    }
}

/// A position with the properties of `first_index` is `first_index`.
pub proof fn lemma_first_index_is<T>(s: Seq<T>, pred: spec_fn(T) -> bool, p: int)
    requires
        0 <= p <= s.len(),
        forall|k: int| 0 <= k < p ==> !pred(#[trigger] s[k]),
        p < s.len() ==> pred(s[p]),
    ensures
        first_index(s, pred) == p,
    decreases s.len(),
{
    if s.len() > 0 && p > 0 {
        let rest = s.drop_first();
        assert(!pred(s[0]));
        assert forall|k: int| 0 <= k < p - 1 implies !pred(#[trigger] rest[k]) by {
            assert(rest[k] == s[k + 1]);
        }
        if p - 1 < rest.len() {
            assert(rest[p - 1] == s[p]);
        }
        lemma_first_index_is(rest, pred, p - 1);
    }
}

/// The first entry that satisfies `pred`, if any does.
pub open spec fn find_first<T>(s: Seq<T>, pred: spec_fn(T) -> bool) -> Option<T> {
    if first_index(s, pred) < s.len() {
        Some(s[first_index(s, pred)])
    } else {
        None
    }
}

/// Two predicates that agree on every entry have the same first index.
pub proof fn lemma_first_index_agrees<T>(
    s: Seq<T>,
    p: spec_fn(T) -> bool,
    q: spec_fn(T) -> bool,
)
    requires
        forall|k: int| 0 <= k < s.len() ==> p(#[trigger] s[k]) == q(s[k]),
    ensures
        first_index(s, p) == first_index(s, q),
{
    lemma_first_index(s, p);
    lemma_first_index_is(s, q, first_index(s, p));
}

/// Filtering no entries yields none.
pub proof fn lemma_filter_start<T>(s: Seq<T>, pred: spec_fn(T) -> bool)
    ensures
        s.take(0).filter(pred) == Seq::<T>::empty(),
{
    reveal(Seq::filter);
    assert(s.take(0) =~= Seq::<T>::empty());
}

/// Filtering one entry more appends that entry if it satisfies the
/// predicate and changes nothing otherwise.
pub proof fn lemma_filter_step<T>(s: Seq<T>, pred: spec_fn(T) -> bool, i: int)
    requires
        0 <= i < s.len(),
    ensures
        s.take(i + 1).filter(pred) == if pred(s[i]) {
            s.take(i).filter(pred).push(s[i])
        } else {
            s.take(i).filter(pred)
        },
{
    reveal(Seq::filter);
    assert(s.take(i + 1).drop_last() =~= s.take(i));
}

/// A sequence without an entry that satisfies the predicate filters to
/// nothing.
pub proof fn lemma_filter_of_none<T>(s: Seq<T>, pred: spec_fn(T) -> bool)
    requires
        first_index(s, pred) == s.len(),
    ensures
        s.filter(pred) == Seq::<T>::empty(),
    decreases s.len(),
{
    reveal(Seq::filter);
    lemma_first_index(s, pred);
    if s.len() > 0 {
        let front = s.drop_last();
        assert forall|k: int| 0 <= k < front.len() implies !pred(#[trigger] front[k]) by {
            assert(front[k] == s[k]);
        }
        lemma_first_index_is(front, pred, front.len() as int);
        lemma_filter_of_none(front, pred);
        assert(!pred(s[s.len() - 1]));
    }
}

/// A sequence in which at most one entry satisfies the predicate, and one
/// does, filters to that entry.
pub proof fn lemma_filter_of_one<T>(s: Seq<T>, pred: spec_fn(T) -> bool)
    requires
        first_index(s, pred) < s.len(),
        forall|i: int, j: int| 0 <= i < j < s.len() ==> !(pred(s[i]) && pred(s[j])),
    ensures
        s.filter(pred) == seq![s[first_index(s, pred)]],
    decreases s.len(),
{
    reveal(Seq::filter);
    lemma_first_index(s, pred);
    let p = first_index(s, pred);
    let front = s.drop_last();
    let last = s[s.len() - 1];
    if p == s.len() - 1 {
        assert forall|k: int| 0 <= k < front.len() implies !pred(#[trigger] front[k]) by {
            assert(front[k] == s[k]);
        }
        lemma_first_index_is(front, pred, front.len() as int);
        lemma_filter_of_none(front, pred);
        assert(s.filter(pred) =~= seq![last]);
    } else {
        assert(!pred(last));
        assert forall|k: int| 0 <= k < p implies !pred(#[trigger] front[k]) by {
            assert(front[k] == s[k]);
        }
        assert(front[p] == s[p]);
        lemma_first_index_is(front, pred, p);
        assert forall|i: int, j: int| 0 <= i < j < front.len() implies !(pred(front[i]) && pred(
            front[j],
        )) by {
            assert(front[i] == s[i] && front[j] == s[j]);
        }
        lemma_filter_of_one(front, pred);
    }
}

/// A sequence whose entries all satisfy the predicate filters to itself.
pub proof fn lemma_filter_of_all<T>(s: Seq<T>, pred: spec_fn(T) -> bool)
    requires
        forall|k: int| 0 <= k < s.len() ==> pred(#[trigger] s[k]),
    ensures
        s.filter(pred) == s,
    decreases s.len(),
{
    reveal(Seq::filter);
    if s.len() > 0 {
        let front = s.drop_last();
        assert forall|k: int| 0 <= k < front.len() implies pred(#[trigger] front[k]) by {
            assert(front[k] == s[k]);
        }
        lemma_filter_of_all(front, pred);
        assert(front.push(s[s.len() - 1]) =~= s);
    }
}

/// An entry is in the filtered sequence exactly when it is in the sequence
/// and satisfies the predicate.
pub proof fn lemma_filter_membership<T>(s: Seq<T>, pred: spec_fn(T) -> bool, entry: T)
    ensures
        s.filter(pred).contains(entry) <==> s.contains(entry) && pred(entry),
{
    let kept = s.filter(pred);
    if kept.contains(entry) {
        s.lemma_filter_contains_rev(pred, entry);
        let k = choose|k: int| 0 <= k < kept.len() && kept[k] == entry;
        s.lemma_filter_pred(pred, k);
    }
    if s.contains(entry) && pred(entry) {
        let i = choose|i: int| 0 <= i < s.len() && s[i] == entry;
        s.lemma_filter_contains(pred, i);
    }
}

} // verus!
