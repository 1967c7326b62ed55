use crate::indexed::{can_step, lemma_steps_push, step, steps};
use crate::outcomes::{all_failed_with, failed_before_last, first_success, stopped_at_success};
use crate::{IntoTransaction, Transaction};
use std::marker::PhantomData;
use vstd::prelude::*;

verus! {

/// Tries the transactions `f(0)`, `f(1)`, ... up to `n` of them, one after the
/// other on one context, and returns the first success. When all `n` fail, the
/// failure holds all their errors, in the order of the attempts.
pub fn retry<Ctx, F, Tx>(n: usize, f: F) -> (tx: Retry<Ctx, F, Tx>) where
    Tx: IntoTransaction<Ctx>,
    F: Fn(usize) -> Tx,

    ensures
        tx.count() == n,
        tx.func() == f,
{
    Retry { n: n, f: f, _phantom: PhantomData }
}

/// The result of [`retry`].
#[derive(Debug)]
#[must_use]
pub struct Retry<Ctx, F, Tx> {
    n: usize,
    f: F,
    _phantom: PhantomData<(Tx, Ctx)>,
}

impl<Ctx, F, Tx> Retry<Ctx, F, Tx> {
    /// The number of attempts allowed.
    pub closed spec fn count(&self) -> usize {
        self.n
    }

    /// The function that builds the transaction of each attempt.
    pub closed spec fn func(&self) -> F {
        self.f
    }
}

impl<Ctx, F, Tx> Transaction for Retry<Ctx, F, Tx> where F: Fn(usize) -> Tx, Tx: IntoTransaction<Ctx> {
    type Ctx = Ctx;

    type Item = Tx::Item;

    type Err = Vec<Tx::Err>;

    open spec fn can_run(&self, ctx: Ctx) -> bool {
        forall|ctxs: Seq<Ctx>, outs: Seq<Result<Tx::Item, Tx::Err>>|
            {
                &&& #[trigger] steps::<Ctx, F, Tx>(self.func(), ctxs, outs)
                &&& ctxs[0] == ctx
                &&& outs.len() < self.count()
                &&& forall|i: int| 0 <= i < outs.len() ==> (#[trigger] outs[i]) is Err
            } ==> can_step::<Ctx, F, Tx>(self.func(), outs.len() as int, ctxs.last())
    }

    open spec fn runs(&self, pre: Ctx, post: Ctx, out: Result<Tx::Item, Vec<Tx::Err>>) -> bool {
        exists|ctxs: Seq<Ctx>, outs: Seq<Result<Tx::Item, Tx::Err>>|
            {
                &&& #[trigger] steps::<Ctx, F, Tx>(self.func(), ctxs, outs)
                &&& ctxs[0] == pre
                &&& ctxs.last() == post
                &&& failed_before_last(outs)
                &&& match out {
                    Ok(t) => 0 < outs.len() <= self.count() && outs.last() == Ok::<Tx::Item, Tx::Err>(t),
                    Err(errs) => outs.len() == self.count() && all_failed_with(outs, errs@),
                }
            }
    }

    fn run(&self, ctx: &mut Ctx) -> (out: Result<Tx::Item, Vec<Tx::Err>>) {
        let ghost pre = *ctx;
        let ghost mut ctxs = seq![pre];
        let ghost mut outs = Seq::<Result<Tx::Item, Tx::Err>>::empty();
        let mut ret = Vec::new();
        for i in 0..self.n
            invariant
                pre == *old(ctx),
                self.can_run(pre),
                steps::<Ctx, F, Tx>(self.func(), ctxs, outs),
                ctxs[0] == pre,
                ctxs.last() == *ctx,
                outs.len() == i,
                all_failed_with(outs, ret@),
        {
            let a = (self.f)(i);
            let ghost before = *ctx;
            let ghost built = a;
            match a.into_transaction().run(ctx) {
                Ok(t) => {
                    proof {
                        assert(step::<Ctx, F, Tx>(self.func(), i as int, before, *ctx, Ok(t))) by {
                            assert(call_ensures(self.func(), (i,), built));
                        }
                        lemma_steps_push::<Ctx, F, Tx>(self.func(), ctxs, outs, *ctx, Ok(t));
                        assert(failed_before_last(outs.push(Ok(t))));
                    }
                    return Ok(t);
                },
                Err(e) => {
                    proof {
                        assert(step::<Ctx, F, Tx>(self.func(), i as int, before, *ctx, Err(e))) by {
                            assert(call_ensures(self.func(), (i,), built));
                        }
                        lemma_steps_push::<Ctx, F, Tx>(self.func(), ctxs, outs, *ctx, Err(e));
                        ctxs = ctxs.push(*ctx);
                        outs = outs.push(Err(e));
                    }
                    ret.push(e);
                },
            }
        }
        proof {
            assert(failed_before_last(outs));
        }
        Err(ret)
    }
}

/// A retry makes its attempts in order on one context and stops at the first
/// success. If it fails, all `n` attempts were made, all failed, and the error
/// holds their `n` errors in the order of the attempts. If it succeeds, some
/// attempt `k` returned the item, the attempts before it failed, and none was
/// made after it: the context is the one that attempt `k` left.
pub proof fn lemma_retry_runs<Ctx, F, Tx>(
    tx: Retry<Ctx, F, Tx>,
    pre: Ctx,
    post: Ctx,
    out: Result<Tx::Item, Vec<Tx::Err>>,
) where F: Fn(usize) -> Tx, Tx: IntoTransaction<Ctx>
    requires
        tx.runs(pre, post, out),
    ensures
        exists|ctxs: Seq<Ctx>, outs: Seq<Result<Tx::Item, Tx::Err>>|
            {
                &&& #[trigger] steps::<Ctx, F, Tx>(tx.func(), ctxs, outs)
                &&& ctxs[0] == pre
                &&& ctxs.last() == post
                &&& outs.len() <= tx.count()
                &&& match out {
                    Ok(t) => stopped_at_success(outs, t),
                    Err(errs) => {
                        &&& errs@.len() == tx.count()
                        &&& outs.len() == tx.count()
                        &&& all_failed_with(outs, errs@)
                    },
                }
            },
{
    let (ctxs, outs) = choose|ctxs: Seq<Ctx>, outs: Seq<Result<Tx::Item, Tx::Err>>|
        {
            &&& #[trigger] steps::<Ctx, F, Tx>(tx.func(), ctxs, outs)
            &&& ctxs[0] == pre
            &&& ctxs.last() == post
            &&& failed_before_last(outs)
            &&& match out {
                Ok(t) => 0 < outs.len() <= tx.count() && outs.last() == Ok::<Tx::Item, Tx::Err>(t),
                Err(errs) => outs.len() == tx.count() && all_failed_with(outs, errs@),
            }
        };
    if let Ok(t) = out {
        assert(first_success(outs, outs.len() - 1, t));
    }
}

/// A retry with no attempts fails with no errors and leaves the context as it
/// was.
pub proof fn lemma_retry_none<Ctx, F, Tx>(
    tx: Retry<Ctx, F, Tx>,
    pre: Ctx,
    post: Ctx,
    out: Result<Tx::Item, Vec<Tx::Err>>,
) where F: Fn(usize) -> Tx, Tx: IntoTransaction<Ctx>
    requires
        tx.count() == 0,
    ensures
        tx.can_run(pre),
        tx.runs(pre, post, out) ==> post == pre && out is Err && out->Err_0@.len() == 0,
{
}

} // verus!
