//! Generic helpers used at every fan-in point: splitting a batch of fallible
//! results into successes and failures, collapsing nested results, and
//! interleaving a separator between items.

use vstd::prelude::*;

verus! {

/// The successes of a sequence of results, in order.
pub open spec fn oks_of<T, E>(s: Seq<Result<T, E>>) -> Seq<T>
    decreases s.len(),
{
    if s.len() == 0 {
        Seq::empty()
    } else {
        match s.last() {
            Ok(t) => oks_of(s.drop_last()).push(t),
            Err(_) => oks_of(s.drop_last()),
        }
    }
}

/// The failures of a sequence of results, in order.
pub open spec fn errs_of<T, E>(s: Seq<Result<T, E>>) -> Seq<E>
    decreases s.len(),
{
    if s.len() == 0 {
        Seq::empty()
    } else {
        match s.last() {
            Ok(_) => errs_of(s.drop_last()),
            Err(e) => errs_of(s.drop_last()).push(e),
        }
    }
}

/// Partitioning is total: every element of the input lands in exactly one of
/// the two output sequences, so the lengths always add up.
pub proof fn lemma_partition_total<T, E>(s: Seq<Result<T, E>>)
    ensures
        oks_of(s).len() + errs_of(s).len() == s.len(),
    decreases s.len(),
{
    if s.len() > 0 {
        lemma_partition_total(s.drop_last());
    }
}

/// Splits a sequence of fallible results into the successes and the failures,
/// each keeping its relative order from the input.
pub fn partition<T, E>(results: Vec<Result<T, E>>) -> (r: (Vec<T>, Vec<E>))
    ensures
        r.0@ == oks_of(results@),
        r.1@ == errs_of(results@),
        r.0@.len() + r.1@.len() == results@.len(),
{
    let ghost orig: Seq<Result<T, E>> = results@;
    let mut rest = results;
    let n = rest.len();
    let mut successes: Vec<T> = Vec::new();
    let mut failures: Vec<E> = Vec::new();
    let mut i: usize = 0;
    while rest.len() > 0
        invariant
            n == orig.len(),
            i + rest@.len() == orig.len(),
            rest@ == orig.skip(i as int),
            successes@ == oks_of(orig.take(i as int)),
            failures@ == errs_of(orig.take(i as int)),
        decreases rest@.len(),
    {
        let ghost prev = rest@;
        let x = rest.remove(0);
        proof {
            assert(x == orig[i as int]);
            assert(rest@ =~= orig.skip(i + 1));
            assert(orig.take(i + 1).drop_last() =~= orig.take(i as int));
            assert(orig.take(i + 1).last() == orig[i as int]);
        }
        match x {
            Ok(t) => successes.push(t),
            Err(e) => failures.push(e),
        }
        i = i + 1;
    }
    proof {
        assert(orig.take(i as int) =~= orig);
        lemma_partition_total(orig);
    }
    (successes, failures)
}

/// The distinct elements of a sequence, each at its first occurrence, in
/// order.
pub open spec fn distinct_of<A>(s: Seq<A>) -> Seq<A>
    decreases s.len(),
{
    if s.len() == 0 {
        Seq::empty()
    } else {
        let rest = distinct_of(s.drop_last());
        if rest.contains(s.last()) {
            rest
        } else {
            rest.push(s.last())
        }
    }
}

pub proof fn lemma_contains_drop_last<A>(s: Seq<A>, x: A)
    requires
        s.len() > 0,
    ensures
        s.contains(x) <==> (s.drop_last().contains(x) || s.last() == x),
{
    if s.contains(x) {
        let i = choose|i: int| 0 <= i < s.len() && s[i] == x;
        if i < s.len() - 1 {
            assert(s.drop_last()[i] == x);
            assert(s.drop_last().contains(x));
        }
    }
    if s.drop_last().contains(x) {
        let i = choose|i: int| 0 <= i < s.drop_last().len() && s.drop_last()[i] == x;
        assert(s[i] == x);
    }
    if s.last() == x {
        assert(s[s.len() - 1] == x);
    }
}

/// `distinct_of` keeps exactly the elements of its input, each exactly once.
pub proof fn lemma_distinct_of_props<A>(s: Seq<A>)
    ensures
        forall|x: A| #[trigger] distinct_of(s).contains(x) <==> s.contains(x),
        forall|i: int, j: int|
            0 <= i < j < distinct_of(s).len() ==> distinct_of(s)[i] != distinct_of(s)[j],
        distinct_of(s).len() <= s.len(),
    decreases s.len(),
{
    if s.len() > 0 {
        let prior = s.drop_last();
        let rest = distinct_of(prior);
        let d = distinct_of(s);
        lemma_distinct_of_props(prior);
        assert forall|x: A| #[trigger] d.contains(x) <==> s.contains(x) by {
            lemma_contains_drop_last(s, x);
            if rest.contains(s.last()) {
            } else {
                if d.contains(x) {
                    let i = choose|i: int| 0 <= i < d.len() && d[i] == x;
                    if i < d.len() - 1 {
                        assert(rest[i] == x);
                        assert(rest.contains(x));
                    }
                }
                if s.contains(x) {
                    if prior.contains(x) {
                        assert(rest.contains(x));
                        let i = choose|i: int| 0 <= i < rest.len() && rest[i] == x;
                        assert(d[i] == x);
                    } else {
                        assert(x == s.last());
                        assert(d.last() == x);
                    }
                }
            }
        }
        if !rest.contains(s.last()) {
            assert forall|i: int, j: int| 0 <= i < j < d.len() implies d[i] != d[j] by {
                if j < d.len() - 1 {
                    assert(d[i] == rest[i] && d[j] == rest[j]);
                } else {
                    assert(d[i] == rest[i]);
                    assert(rest.contains(rest[i]));
                    assert(d[j] == s.last());
                }
            }
        }
    }
}

/// Collapses a nested result, converting the outer error with `f`.
pub fn flatten_results<T, E, E2, F: FnOnce(E2) -> E>(
    nested_results: Result<Result<T, E>, E2>,
    f: F,
) -> (r: Result<T, E>)
    requires
        forall|e2: E2| f.requires((e2,)),
    ensures
        match nested_results {
            Ok(inner) => r == inner,
            Err(e2) => r matches Err(e) && f.ensures((e2,), e),
        },
{
    match nested_results {
        Ok(inner) => inner,
        Err(e2) => Err(f(e2)),
    }
}

/// Interleaves a separator between consecutive items: the result alternates
/// clones of the items, in order, with clones of the separator, and is empty
/// exactly when the input is.
pub fn separate_by<T: Clone>(items: Vec<T>, separator: T) -> (r: Vec<T>)
    ensures
        items@.len() == 0 ==> r@.len() == 0,
        items@.len() > 0 ==> r@.len() == 2 * items@.len() - 1,
        forall|k: int|
            0 <= k < items@.len() ==> vstd::pervasive::cloned(items@[k], #[trigger] r@[2 * k]),
        forall|k: int|
            0 <= k < items@.len() - 1 ==> vstd::pervasive::cloned(separator, #[trigger] r@[2 * k + 1]),
{
    let mut separated_items: Vec<T> = Vec::new();
    let item_size = items.len();
    let mut index: usize = 0;
    while index < item_size
        invariant
            item_size == items@.len(),
            index <= item_size,
            index == 0 ==> separated_items@.len() == 0,
            index > 0 ==> separated_items@.len() == 2 * index - 1,
            forall|k: int|
                0 <= k < index ==> vstd::pervasive::cloned(
                    items@[k],
                    #[trigger] separated_items@[2 * k],
                ),
            forall|k: int|
                0 <= k < index - 1 ==> vstd::pervasive::cloned(
                    separator,
                    #[trigger] separated_items@[2 * k + 1],
                ),
        decreases item_size - index,
    {
        if index > 0 {
            separated_items.push(separator.clone());
        }
        separated_items.push(items[index].clone());
        index = index + 1;
    }
    separated_items
}

} // verus!
