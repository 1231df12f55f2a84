//! Listing order. Rows are listed by a key, and rows with the same key in the
//! order in which they were stored.

use vstd::prelude::*;

verus! {

/// The views of a sequence of values, one for one.
pub open spec fn views<T: View>(items: Seq<T>) -> Seq<T::V> {
    Seq::new(items.len(), |i: int| items[i]@)
}

/// Of two values one is at or before the other.
pub open spec fn total<A>(leq: spec_fn(A, A) -> bool) -> bool {
    forall|a: A, b: A| #[trigger] leq(a, b) || leq(b, a)
}

/// What is at or before a value is at or before all that the value is at or before.
pub open spec fn transitive<A>(leq: spec_fn(A, A) -> bool) -> bool {
    forall|a: A, b: A, c: A| #[trigger] leq(a, b) && #[trigger] leq(b, c) ==> leq(a, c)
}

/// Each value of the sequence is at or before those that follow it.
pub open spec fn in_order<A>(rows: Seq<A>, leq: spec_fn(A, A) -> bool) -> bool {
    forall|i: int, j: int| 0 <= i < j < rows.len() ==> leq(rows[i], rows[j])
}

/// `x` put into `sorted` behind the last value that is at or before it.
pub open spec fn inserted<A>(sorted: Seq<A>, x: A, leq: spec_fn(A, A) -> bool) -> Seq<A>
    decreases sorted.len(),
{
    if sorted.len() == 0 {
        seq![x]
    } else if leq(sorted.last(), x) {
        sorted.push(x)
    } else {
        inserted(sorted.drop_last(), x, leq).push(sorted.last())
    }
}

/// The rows in listing order: each put, in turn, behind the last of the
/// earlier rows that is at or before it.
pub open spec fn ordered<A>(rows: Seq<A>, leq: spec_fn(A, A) -> bool) -> Seq<A>
    decreases rows.len(),
{
    if rows.len() == 0 {
        rows
    } else {
        inserted(ordered(rows.drop_last(), leq), rows.last(), leq)
    }
}

/// Where `inserted` puts a value: at the one position `at` such that the
/// value before it, if any, is at or before `x` and none from `at` on is.
pub proof fn lemma_inserted_at<A>(sorted: Seq<A>, x: A, leq: spec_fn(A, A) -> bool, at: int)
    requires
        0 <= at <= sorted.len(),
        at > 0 ==> leq(sorted[at - 1], x),
        forall|j: int| at <= j < sorted.len() ==> !leq(sorted[j], x),
    ensures
        inserted(sorted, x, leq) == sorted.insert(at, x),
    decreases sorted.len(),
{
    if sorted.len() == 0 {
        assert(seq![x] =~= sorted.insert(at, x));
    } else if leq(sorted.last(), x) {
        assert(at == sorted.len());
        assert(sorted.push(x) =~= sorted.insert(at, x));
    } else {
        assert(at < sorted.len());
        lemma_inserted_at(sorted.drop_last(), x, leq, at);
        assert(sorted.drop_last().insert(at, x).push(sorted.last()) =~= sorted.insert(at, x));
    }
}

/// Inserting adds one value and keeps the others.
pub proof fn lemma_inserted_holds<A>(sorted: Seq<A>, x: A, leq: spec_fn(A, A) -> bool)
    ensures
        inserted(sorted, x, leq).to_multiset() == sorted.to_multiset().insert(x),
        inserted(sorted, x, leq).len() == sorted.len() + 1,
    decreases sorted.len(),
{
    broadcast use vstd::seq_lib::group_to_multiset_ensures;

    if sorted.len() == 0 {
        assert(seq![x] =~= sorted.push(x));
    } else if leq(sorted.last(), x) {
    } else {
        lemma_inserted_holds(sorted.drop_last(), x, leq);
        assert(sorted =~= sorted.drop_last().push(sorted.last()));
        assert(sorted.drop_last().to_multiset().insert(x).insert(sorted.last())
            =~= sorted.drop_last().to_multiset().insert(sorted.last()).insert(x));
    }
}

/// Inserting into a sequence that is in order leaves it in order.
pub proof fn lemma_inserted_in_order<A>(sorted: Seq<A>, x: A, leq: spec_fn(A, A) -> bool)
    requires
        total(leq),
        transitive(leq),
        in_order(sorted, leq),
    ensures
        in_order(inserted(sorted, x, leq), leq),
    decreases sorted.len(),
{
    let out = inserted(sorted, x, leq);
    if sorted.len() == 0 {
    } else if leq(sorted.last(), x) {
        assert forall|i: int, j: int| 0 <= i < j < out.len() implies leq(out[i], out[j]) by {
            if j == sorted.len() && i < sorted.len() - 1 {
                assert(leq(sorted[i], sorted.last()));
            }
        }
    } else {
        let front = sorted.drop_last();
        let inner = inserted(front, x, leq);
        lemma_inserted_in_order(front, x, leq);
        lemma_inserted_holds(front, x, leq);
        broadcast use vstd::seq_lib::group_to_multiset_ensures;

        assert(leq(x, sorted.last()));
        assert forall|i: int, j: int| 0 <= i < j < out.len() implies leq(out[i], out[j]) by {
            if j == inner.len() {
                assert(inner.to_multiset().count(inner[i]) > 0);
                if inner[i] != x {
                    assert(front.to_multiset().count(inner[i]) > 0);
                    assert(front.contains(inner[i]));
                    let k = choose|k: int| 0 <= k < front.len() && front[k] == inner[i];
                    assert(leq(sorted[k], sorted[sorted.len() - 1]));
                }
            }
        }
    }
}

/// The listing order holds the rows it was given, each as often as it was there.
pub proof fn lemma_ordered_holds<A>(rows: Seq<A>, leq: spec_fn(A, A) -> bool)
    ensures
        ordered(rows, leq).to_multiset() == rows.to_multiset(),
        ordered(rows, leq).len() == rows.len(),
    decreases rows.len(),
{
    broadcast use vstd::seq_lib::group_to_multiset_ensures;

    if rows.len() > 0 {
        lemma_ordered_holds(rows.drop_last(), leq);
        lemma_inserted_holds(ordered(rows.drop_last(), leq), rows.last(), leq);
        assert(rows =~= rows.drop_last().push(rows.last()));
    }
}

/// The listing order is in order, for a key order that is total and transitive.
pub proof fn lemma_ordered_in_order<A>(rows: Seq<A>, leq: spec_fn(A, A) -> bool)
    requires
        total(leq),
        transitive(leq),
    ensures
        in_order(ordered(rows, leq), leq),
    decreases rows.len(),
{
    if rows.len() > 0 {
        lemma_ordered_in_order(rows.drop_last(), leq);
        lemma_inserted_in_order(ordered(rows.drop_last(), leq), rows.last(), leq);
    }
}

/// A kind of row that is listed in a fixed order.
pub trait Listed: View + Sized {
    /// Whether a row with view `a` is listed at or before one with view `b`.
    spec fn precedes(a: Self::V, b: Self::V) -> bool;

    /// Whether this row is listed at or before `other`.
    fn goes_before(&self, other: &Self) -> (first: bool)
        ensures
            first == Self::precedes(self@, other@),
    ;

    /// A copy of this row.
    fn duplicate(&self) -> (copy: Self)
        ensures
            copy@ == self@,
    ;
}

/// The order in which rows of kind `T` are listed.
pub open spec fn listing<T: Listed>() -> spec_fn(T::V, T::V) -> bool {
    |a: T::V, b: T::V| T::precedes(a, b)
}

/// Copies of the rows in listing order.
pub fn list_in_order<T: Listed>(rows: &Vec<T>) -> (out: Vec<T>)
    ensures
        views(out@) == ordered(views(rows@), listing::<T>()),
{
    let mut out: Vec<T> = Vec::new();
    let mut k: usize = 0;
    assert(views(rows@).take(0) =~= Seq::<T::V>::empty());
    assert(views(out@) =~= Seq::<T::V>::empty());
    while k < rows.len()
        invariant
            k <= rows.len(),
            out.len() == k,
            views(out@) == ordered(views(rows@).take(k as int), listing::<T>()),
        decreases rows.len() - k,
    {
        let row = rows[k].duplicate();
        let mut at: usize = out.len();
        while at > 0 && !out[at - 1].goes_before(&row)
            invariant
                at <= out.len(),
                forall|j: int| at <= j < out.len() ==> !T::precedes(out@[j]@, row@),
            decreases at,
        {
            at = at - 1;
        }
        proof {
            let before = views(out@);
            let prefix = views(rows@).take(k as int);
            let next = views(rows@).take(k + 1);
            assert(next.drop_last() =~= prefix);
            assert(next.last() == row@);
            assert forall|j: int| at <= j < before.len() implies !listing::<T>()(before[j], row@) by {
                assert(before[j] == out@[j]@);
            }
            if at > 0 {
                assert(before[at - 1] == out@[at - 1]@);
            }
            lemma_inserted_at(before, row@, listing::<T>(), at as int);
            assert(views(out@.insert(at as int, row)) =~= before.insert(at as int, row@));
        }
        out.insert(at, row);
        k = k + 1;
    }
    assert(views(rows@).take(rows.len() as int) =~= views(rows@));
    out
}

} // verus!
