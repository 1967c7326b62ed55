//! Predicates on the outcomes of several runs, shared by the combinators that
//! run more than one transaction.

use vstd::prelude::*;

verus! {

/// Whether every one of `outs` but the last is a success.
pub open spec fn succeeded_before_last<T, E>(outs: Seq<Result<T, E>>) -> bool {
    forall|i: int| 0 <= i < outs.len() - 1 ==> (#[trigger] outs[i]) is Ok
}

/// Whether every one of `outs` but the last is a failure.
pub open spec fn failed_before_last<T, E>(outs: Seq<Result<T, E>>) -> bool {
    forall|i: int| 0 <= i < outs.len() - 1 ==> (#[trigger] outs[i]) is Err
}

/// Whether all of `outs` are successes and `items` holds their items, in order.
pub open spec fn all_succeeded_with<T, E>(outs: Seq<Result<T, E>>, items: Seq<T>) -> bool {
    &&& items.len() == outs.len()
    &&& forall|i: int| 0 <= i < outs.len() ==> #[trigger] outs[i] == Ok::<T, E>(items[i])
}

/// Whether all of `outs` are failures and `errs` holds their errors, in order.
pub open spec fn all_failed_with<T, E>(outs: Seq<Result<T, E>>, errs: Seq<E>) -> bool {
    &&& errs.len() == outs.len()
    &&& forall|i: int| 0 <= i < outs.len() ==> #[trigger] outs[i] == Err::<T, E>(errs[i])
}

/// Whether `outs[k]` is the first failure among `outs`, with the error `e`.
pub open spec fn first_failure<T, E>(outs: Seq<Result<T, E>>, k: int, e: E) -> bool {
    &&& 0 <= k < outs.len()
    &&& outs[k] == Err::<T, E>(e)
    &&& forall|i: int| 0 <= i < k ==> (#[trigger] outs[i]) is Ok
}

/// Whether `outs[k]` is the first success among `outs`, with the item `t`.
pub open spec fn first_success<T, E>(outs: Seq<Result<T, E>>, k: int, t: T) -> bool {
    &&& 0 <= k < outs.len()
    &&& outs[k] == Ok::<T, E>(t)
    &&& forall|i: int| 0 <= i < k ==> (#[trigger] outs[i]) is Err
}

/// Whether `outs` ends with its first failure, which has the error `e`.
pub open spec fn stopped_at_failure<T, E>(outs: Seq<Result<T, E>>, e: E) -> bool {
    exists|k: int| #[trigger] first_failure(outs, k, e) && outs.len() == k + 1
}

/// Whether `outs` ends with its first success, which has the item `t`.
pub open spec fn stopped_at_success<T, E>(outs: Seq<Result<T, E>>, t: T) -> bool {
    exists|k: int| #[trigger] first_success(outs, k, t) && outs.len() == k + 1
}

/// Whether some one of `outs` is a failure and the first such has the error `e`.
pub open spec fn first_failed_with<T, E>(outs: Seq<Result<T, E>>, e: E) -> bool {
    exists|k: int| #[trigger] first_failure(outs, k, e)
}

/// Whether `out` is what collecting `outs` gives: all the items in order if all
/// succeeded, else the error of the first failure.
pub open spec fn collected<T, E>(outs: Seq<Result<T, E>>, out: Result<Vec<T>, E>) -> bool {
    match out {
        Ok(items) => all_succeeded_with(outs, items@),
        Err(e) => first_failed_with(outs, e),
    }
}

} // verus!
