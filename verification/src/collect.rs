//! Outcomes of a list of steps taken in order, where the first failure
//! ends the whole.

use vstd::prelude::*;

verus! {

/// All values of `results` in order, or the error of the first result
/// that is one.
pub open spec fn collect<T, E>(results: Seq<Result<T, E>>) -> Result<Seq<T>, E>
    decreases results.len(),
{
    if results.len() == 0 {
        Ok(Seq::empty())
    } else {
        match collect(results.drop_last()) {
            Err(e) => Err(e),
            Ok(values) => match results.last() {
                Err(e) => Err(e),
                Ok(v) => Ok(values.push(v)),
            },
        }
    }
}

/// Where every step succeeds, the whole gives the values in order.
pub proof fn lemma_collect_ok<T, E>(results: Seq<Result<T, E>>, values: Seq<T>)
    requires
        values.len() == results.len(),
        forall|i: int| 0 <= i < results.len() ==> #[trigger] results[i] == Ok::<T, E>(values[i]),
    ensures
        collect(results) == Ok::<Seq<T>, E>(values),
    decreases results.len(),
{
    if results.len() == 0 {
        assert(values =~= Seq::<T>::empty());
    } else {
        lemma_collect_ok(results.drop_last(), values.drop_last());
        assert(results.last() == results[results.len() - 1]);
        assert(values =~= values.drop_last().push(values.last()));
    }
}

/// The whole fails with the error of the first step that fails.
pub proof fn lemma_collect_err<T, E>(results: Seq<Result<T, E>>, k: int)
    requires
        0 <= k < results.len(),
        results[k] is Err,
        forall|i: int| 0 <= i < k ==> (#[trigger] results[i]) is Ok,
    ensures
        collect(results) == Err::<Seq<T>, E>(results[k]->Err_0),
    decreases results.len(),
{
    if k == results.len() - 1 {
        lemma_collect_prefix_ok(results.drop_last());
    } else {
        lemma_collect_err(results.drop_last(), k);
    }
}

proof fn lemma_collect_prefix_ok<T, E>(results: Seq<Result<T, E>>)
    requires
        forall|i: int| 0 <= i < results.len() ==> (#[trigger] results[i]) is Ok,
    ensures
        collect(results) is Ok,
    decreases results.len(),
{
    if results.len() > 0 {
        lemma_collect_prefix_ok(results.drop_last());
        assert(results.last() == results[results.len() - 1]);
    }
}

/// Where the whole succeeds, every step did, and the values stand in the
/// order of the steps.
pub proof fn lemma_collect_in_order<T, E>(results: Seq<Result<T, E>>)
    ensures
        collect(results) matches Ok(values) ==> values.len() == results.len() && forall|i: int|
            0 <= i < results.len() ==> #[trigger] results[i] == Ok::<T, E>(values[i]),
    decreases results.len(),
{
    if results.len() > 0 {
        lemma_collect_in_order(results.drop_last());
        if collect(results) is Ok {
            let values = collect(results)->Ok_0;
            let front = collect(results.drop_last())->Ok_0;
            assert(values == front.push(results.last()->Ok_0));
            assert forall|i: int| 0 <= i < results.len() implies #[trigger] results[i] == Ok::<
                T,
                E,
            >(values[i]) by {
                if i < results.len() - 1 {
                    assert(results.drop_last()[i] == results[i]);
                    assert(values[i] == front[i]);
                }
            }
        }
    }
}

/// Two lists of steps that both succeed, and that agree wherever both
/// steps succeed, give the same values.
pub proof fn lemma_collect_agree<T, E>(first: Seq<Result<T, E>>, second: Seq<Result<T, E>>)
    requires
        first.len() == second.len(),
        collect(first) is Ok,
        collect(second) is Ok,
        forall|i: int|
            0 <= i < first.len() && (#[trigger] first[i]) is Ok && second[i] is Ok ==> first[i]
                == second[i],
    ensures
        collect(first) == collect(second),
{
    lemma_collect_in_order(first);
    lemma_collect_in_order(second);
    let a = collect(first)->Ok_0;
    let b = collect(second)->Ok_0;
    assert forall|i: int| 0 <= i < a.len() implies a[i] == b[i] by {
        assert(first[i] == Ok::<T, E>(a[i]));
        assert(second[i] == Ok::<T, E>(b[i]));
    }
    assert(a =~= b);
}

} // verus!
