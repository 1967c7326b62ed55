use crate::{IntoTransaction, Transaction};
use std::marker::PhantomData;
use vstd::prelude::*;

verus! {

/// A loop as a transaction. `f` builds the transaction of one round from the
/// state; that transaction returns either the state of the next round or the
/// value that ends the loop. A failure of any round ends the loop at once.
///
/// The transaction of the first round is built here, from `initial_state`, and
/// kept: every run starts with it.
pub fn loop_fn<Ctx, S, T, F, A>(initial_state: S, f: F) -> (tx: LoopFn<Ctx, F, A>) where
    A: IntoTransaction<Ctx, Item = Loop<S, T>>,
    F: Fn(S) -> A,

    requires
        call_requires(f, (initial_state,)),
    ensures
        tx.func() == f,
        exists|a: A| #[trigger] call_ensures(f, (initial_state,), a) && tx.first() == a.lifted(),
{
    LoopFn { tx: f(initial_state).into_transaction(), f: f, _phantom: PhantomData }
}

/// The result of [`loop_fn`].
#[derive(Debug)]
#[must_use]
pub struct LoopFn<Ctx, F, A: IntoTransaction<Ctx>> {
    tx: A::Tx,
    f: F,
    _phantom: PhantomData<Ctx>,
}

/// What one round of a [`loop_fn`] loop asks for next.
#[derive(Debug)]
pub enum Loop<S, T> {
    /// The loop is over, with the value `T`.
    Break(T),
    /// The loop goes on; the next round is built from the state `S`.
    Continue(S),
}

impl<Ctx, F, A: IntoTransaction<Ctx>> LoopFn<Ctx, F, A> {
    /// The transaction of the first round.
    pub closed spec fn first(&self) -> A::Tx {
        self.tx
    }

    /// The function that builds the transaction of each later round.
    pub closed spec fn func(&self) -> F {
        self.f
    }
}

impl<Ctx, S, T, F, A> LoopFn<Ctx, F, A> where
    F: Fn(S) -> A,
    A: IntoTransaction<Ctx, Item = Loop<S, T>>,
 {
    /// Whether `ctxs` and `outs` record a valid round `k`: the first round runs
    /// the stored transaction; a later one runs a transaction that `f` builds
    /// from the state that the round before it returned.
    pub open spec fn round(
        &self,
        k: int,
        ctxs: Seq<Ctx>,
        outs: Seq<Result<Loop<S, T>, A::Err>>,
    ) -> bool {
        if k == 0 {
            self.first().runs(ctxs[0], ctxs[1], outs[0])
        } else {
            &&& outs[k - 1] matches Ok(Loop::Continue(s))
            &&& exists|a: A| #[trigger]
                call_ensures(self.func(), (s,), a) && a.lifted().runs(ctxs[k], ctxs[k + 1], outs[k])
        }
    }

    /// Whether `ctxs` and `outs` record one or more consecutive rounds: round `k`
    /// starts in `ctxs[k]`, leaves `ctxs[k + 1]` and returns `outs[k]`.
    pub open spec fn rounds(&self, ctxs: Seq<Ctx>, outs: Seq<Result<Loop<S, T>, A::Err>>) -> bool {
        &&& outs.len() >= 1
        &&& ctxs.len() == outs.len() + 1
        &&& forall|k: int| 0 <= k < outs.len() ==> #[trigger] self.round(k, ctxs, outs)
    }

    /// Whether `rank` bounds the rounds still to come. Where `rank` is defined
    /// for a state and a context, the round for that state can be built and run
    /// from that context, and if it asks for another round, `rank` is defined
    /// for the state and the context that it leaves, and is smaller there.
    pub open spec fn descends(&self, rank: spec_fn(S, Ctx) -> Option<nat>) -> bool {
        forall|s: S, c: Ctx|
            (#[trigger] rank(s, c)) is Some ==> {
                &&& call_requires(self.func(), (s,))
                &&& forall|a: A| #[trigger]
                    call_ensures(self.func(), (s,), a) ==> {
                        &&& a.lifted().can_run(c)
                        &&& forall|c2: Ctx, s2: S| #[trigger]
                            a.lifted().runs(c, c2, Ok(Loop::Continue(s2))) ==> {
                                &&& rank(s2, c2) matches Some(m)
                                &&& m < rank(s, c)->0
                            }
                    }
            }
    }

    /// Whether `rank` bounds the rounds that follow the first round, run from
    /// `ctx`: it is defined wherever the first round asks for another.
    pub open spec fn bounded_by(&self, rank: spec_fn(S, Ctx) -> Option<nat>, ctx: Ctx) -> bool {
        &&& self.descends(rank)
        &&& forall|c2: Ctx, s2: S| #[trigger]
            self.first().runs(ctx, c2, Ok(Loop::Continue(s2))) ==> rank(s2, c2) is Some
    }
}

impl<Ctx, S, T, F, A> Transaction for LoopFn<Ctx, F, A> where
    F: Fn(S) -> A,
    A: IntoTransaction<Ctx, Item = Loop<S, T>>,
 {
    type Ctx = Ctx;

    type Item = T;

    type Err = A::Err;

    /// The loop may be run where its first round may be run and it is sure to
    /// end: some rank bounds the rounds that follow the first.
    open spec fn can_run(&self, ctx: Ctx) -> bool {
        &&& self.first().can_run(ctx)
        &&& exists|rank: spec_fn(S, Ctx) -> Option<nat>| #[trigger] self.bounded_by(rank, ctx)
    }

    open spec fn runs(&self, pre: Ctx, post: Ctx, out: Result<T, A::Err>) -> bool {
        exists|ctxs: Seq<Ctx>, outs: Seq<Result<Loop<S, T>, A::Err>>|
            {
                &&& #[trigger] self.rounds(ctxs, outs)
                &&& ctxs[0] == pre
                &&& ctxs.last() == post
                &&& match outs.last() {
                    Ok(Loop::Break(t)) => out == Ok::<T, A::Err>(t),
                    Ok(Loop::Continue(_)) => false,
                    Err(e) => out == Err::<T, A::Err>(e),
                }
            }
    }

    fn run(&self, ctx: &mut Ctx) -> (out: Result<T, A::Err>) {
        let ghost pre = *ctx;
        let ghost rank = choose|rank: spec_fn(S, Ctx) -> Option<nat>| #[trigger]
            self.bounded_by(rank, pre);
        let first = self.tx.run(ctx);
        let ghost mut ctxs = seq![pre, *ctx];
        let ghost mut outs = seq![first];
        assert(self.rounds(ctxs, outs)) by {
            assert(self.round(0, ctxs, outs));
        }
        let mut ret = match first {
            Ok(r) => r,
            Err(e) => {
                return Err(e);
            },
        };
        loop
            invariant
                pre == *old(ctx),
                self.descends(rank),
                self.rounds(ctxs, outs),
                ctxs[0] == pre,
                ctxs.last() == *ctx,
                outs.last() == Ok::<Loop<S, T>, A::Err>(ret),
                ret matches Loop::Continue(s) ==> rank(s, *ctx) is Some,
            decreases
                match ret {
                    Loop::Continue(s) => rank(s, *ctx)->0 + 1,
                    Loop::Break(_) => 0,
                },
        {
            let s = match ret {
                Loop::Break(t) => {
                    return Ok(t);
                },
                Loop::Continue(s) => s,
            };
            let ghost state = s;
            let a = (self.f)(s);
            let ghost built = a;
            let next = a.into_transaction().run(ctx);
            proof {
                let ctxs2 = ctxs.push(*ctx);
                let outs2 = outs.push(next);
                assert forall|k: int| 0 <= k < outs2.len() implies #[trigger] self.round(
                    k,
                    ctxs2,
                    outs2,
                ) by {
                    if k < outs.len() {
                        assert(self.round(k, ctxs, outs));
                    } else {
                        assert(call_ensures(self.func(), (state,), built));
                    }
                }
                assert(self.rounds(ctxs2, outs2));
                ctxs = ctxs2;
                outs = outs2;
            }
            ret = match next {
                Ok(r) => r,
                Err(e) => {
                    return Err(e);
                },
            };
        }
    }
}

} // verus!
