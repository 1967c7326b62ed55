use crate::{IntoTransaction, Transaction};
use std::marker::PhantomData;
use vstd::prelude::*;

verus! {

/// Chains a step that depends on the item of the first: after a success of `a`,
/// `f` builds the next transaction from the item, and that one runs on the same
/// context. After a failure of `a`, `f` is not called and the failure is
/// returned.
pub fn and_then<Ctx, A, F, B>(a: A, f: F) -> (tx: AndThen<A::Tx, F, B>) where
    A: IntoTransaction<Ctx>,
    B: IntoTransaction<Ctx, Err = A::Err>,
    F: Fn(A::Item) -> B,

    ensures
        tx.first() == a.lifted(),
        tx.func() == f,
{
    AndThen { tx: a.into_transaction(), f: f, _phantom: PhantomData }
}

/// The result of [`and_then`].
#[derive(Debug)]
#[must_use]
pub struct AndThen<Tx1, F, Tx2> {
    tx: Tx1,
    f: F,
    _phantom: PhantomData<Tx2>,
}

impl<Tx1, F, Tx2> AndThen<Tx1, F, Tx2> {
    /// The transaction that runs first.
    pub closed spec fn first(&self) -> Tx1 {
        self.tx
    }

    /// The function that builds the second step from the item of the first.
    pub closed spec fn func(&self) -> F {
        self.f
    }
}

impl<Tx, Tx2, F> Transaction for AndThen<Tx, F, Tx2> where
    Tx2: IntoTransaction<Tx::Ctx, Err = Tx::Err>,
    Tx: Transaction,
    F: Fn(Tx::Item) -> Tx2,
 {
    type Ctx = Tx::Ctx;

    type Item = Tx2::Item;

    type Err = Tx2::Err;

    open spec fn can_run(&self, ctx: Tx::Ctx) -> bool {
        &&& self.first().can_run(ctx)
        &&& forall|mid: Tx::Ctx, item: Tx::Item| #[trigger]
            self.first().runs(ctx, mid, Ok(item)) ==> {
                &&& call_requires(self.func(), (item,))
                &&& forall|next: Tx2| #[trigger]
                    call_ensures(self.func(), (item,), next) ==> next.lifted().can_run(mid)
            }
    }

    open spec fn runs(
        &self,
        pre: Tx::Ctx,
        post: Tx::Ctx,
        out: Result<Tx2::Item, Tx2::Err>,
    ) -> bool {
        ||| exists|error: Tx::Err| #[trigger]
            self.first().runs(pre, post, Err(error)) && out == Err::<Tx2::Item, Tx2::Err>(error)
        ||| exists|mid: Tx::Ctx, item: Tx::Item, next: Tx2|
            {
                &&& #[trigger] self.first().runs(pre, mid, Ok(item))
                &&& #[trigger] call_ensures(self.func(), (item,), next)
                &&& next.lifted().runs(mid, post, out)
            }
    }

    fn run(&self, ctx: &mut Tx::Ctx) -> (out: Result<Tx2::Item, Tx2::Err>) {
        match self.tx.run(ctx) {
            Ok(item) => (self.f)(item).into_transaction().run(ctx),
            Err(error) => Err(error),
        }
    }
}

/// A chain runs its first step, and then either stops or goes on. If the first
/// step fails, that is the outcome: the error is its error, the context is as it
/// left it, and no second step is built or run. If the first step succeeds, the
/// outcome is that of a second step that `f` built from the item, run from the
/// context that the first step left.
pub proof fn lemma_and_then_runs<Tx, Tx2, F>(
    tx: AndThen<Tx, F, Tx2>,
    pre: Tx::Ctx,
    post: Tx::Ctx,
    out: Result<Tx2::Item, Tx2::Err>,
) where Tx2: IntoTransaction<Tx::Ctx, Err = Tx::Err>, Tx: Transaction, F: Fn(Tx::Item) -> Tx2
    ensures
        tx.runs(pre, post, out) <==> {
            ||| exists|error: Tx::Err| #[trigger]
                tx.first().runs(pre, post, Err(error)) && out == Err::<Tx2::Item, Tx2::Err>(error)
            ||| exists|mid: Tx::Ctx, item: Tx::Item, next: Tx2|
                {
                    &&& #[trigger] tx.first().runs(pre, mid, Ok(item))
                    &&& #[trigger] call_ensures(tx.func(), (item,), next)
                    &&& next.lifted().runs(mid, post, out)
                }
        },
{
}

/// The chain `a.and_then(|_| b)`, where the second step is `b` whatever the
/// item: if `a` fails, the outcome is the failure of `a` and `b` does not run;
/// if `a` succeeds, the outcome is that of `b`, run from the context that `a`
/// left.
pub proof fn lemma_and_then_fixed<Tx, Tx2, F>(
    tx: AndThen<Tx, F, Tx2>,
    b: Tx2,
    pre: Tx::Ctx,
    post: Tx::Ctx,
    out: Result<Tx2::Item, Tx2::Err>,
) where Tx2: IntoTransaction<Tx::Ctx, Err = Tx::Err>, Tx: Transaction, F: Fn(Tx::Item) -> Tx2
    requires
        forall|item: Tx::Item, next: Tx2| #[trigger]
            call_ensures(tx.func(), (item,), next) ==> next == b,
        tx.runs(pre, post, out),
    ensures
        ({
            ||| exists|error: Tx::Err| #[trigger]
                tx.first().runs(pre, post, Err(error)) && out == Err::<Tx2::Item, Tx2::Err>(error)
            ||| exists|mid: Tx::Ctx, item: Tx::Item| #[trigger]
                tx.first().runs(pre, mid, Ok(item)) && b.lifted().runs(mid, post, out)
        }),
{
}

} // verus!
