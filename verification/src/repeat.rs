use crate::indexed::{can_step, lemma_steps_push, step, steps};
use crate::outcomes::{all_succeeded_with, first_failure, stopped_at_failure, succeeded_before_last};
use crate::{IntoTransaction, Transaction};
use std::marker::PhantomData;
use vstd::prelude::*;

verus! {

/// Runs the transactions `f(0)`, `f(1)`, ..., `f(n - 1)` one after the other on
/// one context and collects their items. The first failure ends the run and is
/// returned as it is.
pub fn repeat<Ctx, F, Tx>(n: usize, f: F) -> (tx: Repeat<Ctx, F, Tx>) where
    Tx: IntoTransaction<Ctx>,
    F: Fn(usize) -> Tx,

    ensures
        tx.count() == n,
        tx.func() == f,
{
    Repeat { n: n, f: f, _phantom: PhantomData }
}

/// The result of [`repeat`].
#[derive(Debug)]
#[must_use]
pub struct Repeat<Ctx, F, Tx> {
    n: usize,
    f: F,
    _phantom: PhantomData<(Tx, Ctx)>,
}

impl<Ctx, F, Tx> Repeat<Ctx, F, Tx> {
    /// The number of rounds.
    pub closed spec fn count(&self) -> usize {
        self.n
    }

    /// The function that builds the transaction of each round.
    pub closed spec fn func(&self) -> F {
        self.f
    }
}

impl<Ctx, F, Tx> Transaction for Repeat<Ctx, F, Tx> where F: Fn(usize) -> Tx, Tx: IntoTransaction<Ctx> {
    type Ctx = Ctx;

    type Item = Vec<Tx::Item>;

    type Err = Tx::Err;

    open spec fn can_run(&self, ctx: Ctx) -> bool {
        forall|ctxs: Seq<Ctx>, outs: Seq<Result<Tx::Item, Tx::Err>>|
            {
                &&& #[trigger] steps::<Ctx, F, Tx>(self.func(), ctxs, outs)
                &&& ctxs[0] == ctx
                &&& outs.len() < self.count()
                &&& forall|i: int| 0 <= i < outs.len() ==> (#[trigger] outs[i]) is Ok
            } ==> can_step::<Ctx, F, Tx>(self.func(), outs.len() as int, ctxs.last())
    }

    open spec fn runs(&self, pre: Ctx, post: Ctx, out: Result<Vec<Tx::Item>, Tx::Err>) -> bool {
        exists|ctxs: Seq<Ctx>, outs: Seq<Result<Tx::Item, Tx::Err>>|
            {
                &&& #[trigger] steps::<Ctx, F, Tx>(self.func(), ctxs, outs)
                &&& ctxs[0] == pre
                &&& ctxs.last() == post
                &&& succeeded_before_last(outs)
                &&& match out {
                    Ok(items) => outs.len() == self.count() && all_succeeded_with(outs, items@),
                    Err(e) => 0 < outs.len() <= self.count() && outs.last() == Err::<Tx::Item, Tx::Err>(e),
                }
            }
    }

    fn run(&self, ctx: &mut Ctx) -> (out: Result<Vec<Tx::Item>, Tx::Err>) {
        let ghost pre = *ctx;
        let ghost mut ctxs = seq![pre];
        let ghost mut outs = Seq::<Result<Tx::Item, Tx::Err>>::empty();
        let mut ret = Vec::new();
        for i in 0..self.n
            invariant
                pre == *old(ctx),
                self.can_run(pre),
                steps::<Ctx, F, Tx>(self.func(), ctxs, outs),
                ctxs[0] == pre,
                ctxs.last() == *ctx,
                outs.len() == i,
                all_succeeded_with(outs, ret@),
        {
            let a = (self.f)(i);
            let ghost before = *ctx;
            let ghost built = a;
            match a.into_transaction().run(ctx) {
                Ok(t) => {
                    proof {
                        assert(step::<Ctx, F, Tx>(self.func(), i as int, before, *ctx, Ok(t))) by {
                            assert(call_ensures(self.func(), (i,), built));
                        }
                        lemma_steps_push::<Ctx, F, Tx>(self.func(), ctxs, outs, *ctx, Ok(t));
                        ctxs = ctxs.push(*ctx);
                        outs = outs.push(Ok(t));
                    }
                    ret.push(t);
                },
                Err(e) => {
                    proof {
                        assert(step::<Ctx, F, Tx>(self.func(), i as int, before, *ctx, Err(e))) by {
                            assert(call_ensures(self.func(), (i,), built));
                        }
                        lemma_steps_push::<Ctx, F, Tx>(self.func(), ctxs, outs, *ctx, Err(e));
                        assert(succeeded_before_last(outs.push(Err(e))));
                    }
                    return Err(e);
                },
            }
        }
        proof {
            assert(succeeded_before_last(outs));
        }
        Ok(ret)
    }
}

/// A repeat makes its rounds in order on one context and stops at the first
/// failure. If it succeeds, all `n` rounds were made, all succeeded, and the
/// item holds their `n` items in the order of the rounds. If it fails, some
/// round `k` returned the error, the rounds before it succeeded, and none was
/// made after it: the context is the one that round `k` left.
pub proof fn lemma_repeat_runs<Ctx, F, Tx>(
    tx: Repeat<Ctx, F, Tx>,
    pre: Ctx,
    post: Ctx,
    out: Result<Vec<Tx::Item>, Tx::Err>,
) where F: Fn(usize) -> Tx, Tx: IntoTransaction<Ctx>
    requires
        tx.runs(pre, post, out),
    ensures
        exists|ctxs: Seq<Ctx>, outs: Seq<Result<Tx::Item, Tx::Err>>|
            {
                &&& #[trigger] steps::<Ctx, F, Tx>(tx.func(), ctxs, outs)
                &&& ctxs[0] == pre
                &&& ctxs.last() == post
                &&& outs.len() <= tx.count()
                &&& match out {
                    Ok(items) => {
                        &&& items@.len() == tx.count()
                        &&& outs.len() == tx.count()
                        &&& all_succeeded_with(outs, items@)
                    },
                    Err(e) => stopped_at_failure(outs, e),
                }
            },
{
    let (ctxs, outs) = choose|ctxs: Seq<Ctx>, outs: Seq<Result<Tx::Item, Tx::Err>>|
        {
            &&& #[trigger] steps::<Ctx, F, Tx>(tx.func(), ctxs, outs)
            &&& ctxs[0] == pre
            &&& ctxs.last() == post
            &&& succeeded_before_last(outs)
            &&& match out {
                Ok(items) => outs.len() == tx.count() && all_succeeded_with(outs, items@),
                Err(e) => 0 < outs.len() <= tx.count() && outs.last() == Err::<Tx::Item, Tx::Err>(e),
            }
        };
    if let Err(e) = out {
        assert(first_failure(outs, outs.len() - 1, e));
    }
}

/// A repeat with no rounds succeeds with no items and leaves the context as it
/// was.
pub proof fn lemma_repeat_none<Ctx, F, Tx>(
    tx: Repeat<Ctx, F, Tx>,
    pre: Ctx,
    post: Ctx,
    out: Result<Vec<Tx::Item>, Tx::Err>,
) where F: Fn(usize) -> Tx, Tx: IntoTransaction<Ctx>
    requires
        tx.count() == 0,
    ensures
        tx.can_run(pre),
        tx.runs(pre, post, out) ==> post == pre && out is Ok && out->Ok_0@.len() == 0,
{
}

} // verus!
