use vstd::prelude::*;

verus! {

/// The first element of a sequence that satisfies a predicate, if any does.
pub open spec fn first_match<A>(rows: Seq<A>, wanted: spec_fn(A) -> bool) -> Option<A> {
    let matches = rows.filter(wanted);
    if matches.len() == 0 {
        None
    } else {
        Some(matches[0])
    }
}

/// Where nothing satisfies the predicate, nothing is found.
pub proof fn lemma_no_match<A>(rows: Seq<A>, wanted: spec_fn(A) -> bool)
    requires
        forall|i: int| 0 <= i < rows.len() ==> !wanted(#[trigger] rows[i]),
    ensures
        rows.filter(wanted) == Seq::<A>::empty(),
        first_match(rows, wanted) is None,
    decreases rows.len(),
{
    reveal(Seq::filter);
    if rows.len() > 0 {
        lemma_no_match(rows.drop_last(), wanted);
    }
}

/// The first index at which the predicate holds gives what is found.
pub proof fn lemma_first_match<A>(rows: Seq<A>, wanted: spec_fn(A) -> bool, at: int)
    requires
        0 <= at < rows.len(),
        wanted(rows[at]),
        forall|i: int| 0 <= i < at ==> !wanted(#[trigger] rows[i]),
    ensures
        first_match(rows, wanted) == Some(rows[at]),
{
    let head = rows.take(at);
    let tail = rows.skip(at + 1);
    lemma_no_match(head, wanted);
    Seq::lemma_filter_push(head, rows[at], wanted);
    Seq::filter_distributes_over_add(head.push(rows[at]), tail, wanted);
    assert(rows =~= head.push(rows[at]) + tail);
    assert(head.push(rows[at]).filter(wanted) =~= seq![rows[at]]);
}

/// What is found satisfies the predicate and is the first row to do so.
pub proof fn lemma_first_match_found<A>(rows: Seq<A>, wanted: spec_fn(A) -> bool) -> (at: int)
    requires
        first_match(rows, wanted) is Some,
    ensures
        0 <= at < rows.len(),
        wanted(rows[at]),
        first_match(rows, wanted) == Some(rows[at]),
        forall|i: int| 0 <= i < at ==> !wanted(#[trigger] rows[i]),
{
    if forall|i: int| 0 <= i < rows.len() ==> !wanted(#[trigger] rows[i]) {
        lemma_no_match(rows, wanted);
    }
    lemma_least_match(rows, wanted, rows.len() as int);
    let at = choose|at: int|
        0 <= at < rows.len() && wanted(#[trigger] rows[at]) && forall|i: int|
            0 <= i < at ==> !wanted(#[trigger] rows[i]);
    lemma_first_match(rows, wanted, at);
    at
}

/// Among the first `limit` rows, if one satisfies the predicate then there
/// is a least such index.
proof fn lemma_least_match<A>(rows: Seq<A>, wanted: spec_fn(A) -> bool, limit: int)
    requires
        0 <= limit <= rows.len(),
    ensures
        (exists|k: int| 0 <= k < limit && wanted(#[trigger] rows[k])) ==> exists|at: int|
            0 <= at < limit && wanted(#[trigger] rows[at]) && forall|i: int|
                0 <= i < at ==> !wanted(#[trigger] rows[i]),
    decreases limit,
{
    if limit > 0 {
        lemma_least_match(rows, wanted, limit - 1);
        if exists|k: int| 0 <= k < limit - 1 && wanted(#[trigger] rows[k]) {
        } else if wanted(rows[limit - 1]) {
            let at = limit - 1;
            assert(0 <= at < limit && wanted(rows[at]) && forall|i: int|
                0 <= i < at ==> !wanted(#[trigger] rows[i]));
        }
    }
}

/// Filtering twice keeps what satisfies both predicates.
pub proof fn lemma_filter_twice<A>(
    rows: Seq<A>,
    first: spec_fn(A) -> bool,
    second: spec_fn(A) -> bool,
    both: spec_fn(A) -> bool,
)
    requires
        forall|x: A| #[trigger] both(x) == (first(x) && second(x)),
    ensures
        rows.filter(first).filter(second) == rows.filter(both),
    decreases rows.len(),
{
    reveal(Seq::filter);
    if rows.len() > 0 {
        let front = rows.drop_last();
        lemma_filter_twice(front, first, second, both);
        if first(rows.last()) {
            Seq::lemma_filter_push(front.filter(first), rows.last(), second);
        }
    }
}

/// A change of the rows that the predicate does not see commutes with
/// filtering.
pub proof fn lemma_filter_map<A>(rows: Seq<A>, change: spec_fn(A) -> A, wanted: spec_fn(A) -> bool)
    requires
        forall|x: A| #[trigger] wanted(change(x)) == wanted(x),
    ensures
        rows.map_values(change).filter(wanted) == rows.filter(wanted).map_values(change),
    decreases rows.len(),
{
    reveal(Seq::filter);
    if rows.len() > 0 {
        let front = rows.drop_last();
        lemma_filter_map(front, change, wanted);
        assert(rows.map_values(change).drop_last() =~= front.map_values(change));
        if wanted(rows.last()) {
            assert(front.filter(wanted).push(rows.last()).map_values(change)
                =~= front.filter(wanted).map_values(change).push(change(rows.last())));
        }
    } else {
        assert(rows.map_values(change) =~= rows);
        assert(rows.filter(wanted).map_values(change) =~= rows.filter(wanted));
    }
}

/// After a push, a sequence contains what it contained and what was pushed.
pub proof fn lemma_contains_push<A>(rows: Seq<A>, pushed: A, sought: A)
    ensures
        rows.push(pushed).contains(sought) <==> rows.contains(sought) || sought == pushed,
{
    if rows.push(pushed).contains(sought) {
        let at = choose|at: int| 0 <= at < rows.push(pushed).len() && rows.push(pushed)[at] == sought;
        if at < rows.len() {
            assert(rows[at] == sought);
        }
    }
    if rows.contains(sought) {
        let at = choose|at: int| 0 <= at < rows.len() && rows[at] == sought;
        assert(rows.push(pushed)[at] == sought);
    }
    if sought == pushed {
        assert(rows.push(pushed)[rows.len() as int] == sought);
    }
}

/// Where some row satisfies the predicate, something is found.
pub proof fn lemma_some_match<A>(rows: Seq<A>, wanted: spec_fn(A) -> bool, at: int)
    requires
        0 <= at < rows.len(),
        wanted(rows[at]),
    ensures
        first_match(rows, wanted) is Some,
{
    lemma_least_match(rows, wanted, rows.len() as int);
    let least = choose|least: int|
        0 <= least < rows.len() && wanted(#[trigger] rows[least]) && forall|i: int|
            0 <= i < least ==> !wanted(#[trigger] rows[i]);
    lemma_first_match(rows, wanted, least);
}

/// Predicates that agree on every row keep the same rows.
pub proof fn lemma_filter_agree<A>(rows: Seq<A>, one: spec_fn(A) -> bool, other: spec_fn(A) -> bool)
    requires
        forall|i: int| 0 <= i < rows.len() ==> one(#[trigger] rows[i]) == other(rows[i]),
    ensures
        rows.filter(one) == rows.filter(other),
    decreases rows.len(),
{
    reveal(Seq::filter);
    if rows.len() > 0 {
        lemma_filter_agree(rows.drop_last(), one, other);
    }
}

} // verus!
