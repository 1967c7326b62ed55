//! The model shared by [`repeat`](crate::repeat) and [`retry`](crate::retry):
//! consecutive runs of the transactions that a function builds for the indices
//! 0, 1, 2, ...

use crate::{IntoTransaction, Transaction};
use vstd::prelude::*;

verus! {

/// Whether building the transaction for index `i` with `f` and running it from
/// `pre` may leave `post` and return `out`.
pub open spec fn step<Ctx, F, A>(
    f: F,
    i: int,
    pre: Ctx,
    post: Ctx,
    out: Result<A::Item, A::Err>,
) -> bool where A: IntoTransaction<Ctx>, F: Fn(usize) -> A {
    exists|a: A| #[trigger] call_ensures(f, (i as usize,), a) && a.lifted().runs(pre, post, out)
}

/// Whether `ctxs` and `outs` record the runs for the indices below `outs.len()`,
/// one after the other on one context: run `i` starts in `ctxs[i]`, leaves
/// `ctxs[i + 1]` and returns `outs[i]`.
pub open spec fn steps<Ctx, F, A>(
    f: F,
    ctxs: Seq<Ctx>,
    outs: Seq<Result<A::Item, A::Err>>,
) -> bool where A: IntoTransaction<Ctx>, F: Fn(usize) -> A {
    &&& ctxs.len() == outs.len() + 1
    &&& forall|i: int|
        0 <= i < outs.len() ==> step::<Ctx, F, A>(f, i, ctxs[i], ctxs[i + 1], #[trigger] outs[i])
}

/// Whether the transaction for index `i` may be built and then run from `ctx`.
pub open spec fn can_step<Ctx, F, A>(f: F, i: int, ctx: Ctx) -> bool where
    A: IntoTransaction<Ctx>,
    F: Fn(usize) -> A,
 {
    &&& call_requires(f, (i as usize,))
    &&& forall|a: A| #[trigger] call_ensures(f, (i as usize,), a) ==> a.lifted().can_run(ctx)
}

/// One more run extends a record of runs.
pub proof fn lemma_steps_push<Ctx, F, A>(
    f: F,
    ctxs: Seq<Ctx>,
    outs: Seq<Result<A::Item, A::Err>>,
    post: Ctx,
    out: Result<A::Item, A::Err>,
) where A: IntoTransaction<Ctx>, F: Fn(usize) -> A
    requires
        steps::<Ctx, F, A>(f, ctxs, outs),
        step::<Ctx, F, A>(f, outs.len() as int, ctxs.last(), post, out),
    ensures
        steps::<Ctx, F, A>(f, ctxs.push(post), outs.push(out)),
{
    let ctxs2 = ctxs.push(post);
    let outs2 = outs.push(out);
    assert forall|i: int| 0 <= i < outs2.len() implies step::<Ctx, F, A>(
        f,
        i,
        ctxs2[i],
        ctxs2[i + 1],
        #[trigger] outs2[i],
    ) by {
        if i < outs.len() {
            assert(step::<Ctx, F, A>(f, i, ctxs[i], ctxs[i + 1], outs[i]));
        }
    }
}

} // verus!
