use crate::{IntoTransaction, Transaction};
use vstd::prelude::*;

verus! {

/// Joins two independent transactions on one context. Both run, `a` first,
/// whatever `a` returned; the failure of the whole is that of `a` if `a` failed,
/// else that of `b`.
pub fn join<Ctx, A: IntoTransaction<Ctx>, B: IntoTransaction<Ctx, Err = A::Err>>(a: A, b: B) -> (tx:
    Join<A::Tx, B::Tx>)
    ensures
        tx.first() == a.lifted(),
        tx.second() == b.lifted(),
{
    Join { tx1: a.into_transaction(), tx2: b.into_transaction() }
}

/// What a join of two returns when its children returned `r1` and `r2`: both
/// items, or the leftmost error.
pub open spec fn joined<T1, T2, E>(r1: Result<T1, E>, r2: Result<T2, E>) -> Result<(T1, T2), E> {
    match (r1, r2) {
        (Ok(t1), Ok(t2)) => Ok((t1, t2)),
        (Err(e), _) => Err(e),
        (_, Err(e)) => Err(e),
    }
}

/// The result of [`join`].
#[derive(Debug)]
#[must_use]
pub struct Join<Tx1, Tx2> {
    tx1: Tx1,
    tx2: Tx2,
}

impl<Tx1, Tx2> Join<Tx1, Tx2> {
    /// The child that runs first.
    pub closed spec fn first(&self) -> Tx1 {
        self.tx1
    }

    /// The child that runs second.
    pub closed spec fn second(&self) -> Tx2 {
        self.tx2
    }
}

impl<Tx1, Tx2> Transaction for Join<Tx1, Tx2> where
    Tx1: Transaction,
    Tx2: Transaction<Ctx = Tx1::Ctx, Err = Tx1::Err>,
 {
    type Ctx = Tx1::Ctx;

    type Item = (Tx1::Item, Tx2::Item);

    type Err = Tx1::Err;

    open spec fn can_run(&self, ctx: Tx1::Ctx) -> bool {
        &&& self.first().can_run(ctx)
        &&& forall|c1: Tx1::Ctx, r1: Result<Tx1::Item, Tx1::Err>| #[trigger]
            self.first().runs(ctx, c1, r1) ==> self.second().can_run(c1)
    }

    open spec fn runs(
        &self,
        pre: Tx1::Ctx,
        post: Tx1::Ctx,
        out: Result<(Tx1::Item, Tx2::Item), Tx1::Err>,
    ) -> bool {
        exists|c1: Tx1::Ctx, r1: Result<Tx1::Item, Tx1::Err>, r2: Result<Tx2::Item, Tx1::Err>|
            {
                &&& #[trigger] self.first().runs(pre, c1, r1)
                &&& #[trigger] self.second().runs(c1, post, r2)
                &&& out == joined(r1, r2)
            }
    }

    fn run(&self, ctx: &mut Tx1::Ctx) -> (out: Result<(Tx1::Item, Tx2::Item), Tx1::Err>) {
        let r1 = self.tx1.run(ctx);
        let r2 = self.tx2.run(ctx);
        match (r1, r2) {
            (Ok(t1), Ok(t2)) => Ok((t1, t2)),
            (Err(e), _) | (_, Err(e)) => Err(e),
        }
    }
}

/// A join runs both children, the first and then the second from the context
/// that the first left, whatever the first returned. If both succeed, the
/// outcome holds both items; if the first fails, the outcome is its failure,
/// whether the second failed too or not; if only the second fails, the outcome
/// is its failure.
pub proof fn lemma_join_runs<Tx1, Tx2>(
    tx: Join<Tx1, Tx2>,
    pre: Tx1::Ctx,
    post: Tx1::Ctx,
    out: Result<(Tx1::Item, Tx2::Item), Tx1::Err>,
) where Tx1: Transaction, Tx2: Transaction<Ctx = Tx1::Ctx, Err = Tx1::Err>
    requires
        tx.runs(pre, post, out),
    ensures
        exists|mid: Tx1::Ctx, r1: Result<Tx1::Item, Tx1::Err>, r2: Result<Tx2::Item, Tx1::Err>|
            {
                &&& #[trigger] tx.first().runs(pre, mid, r1)
                &&& #[trigger] tx.second().runs(mid, post, r2)
                &&& match (r1, r2) {
                    (Ok(t1), Ok(t2)) => out == Ok::<(Tx1::Item, Tx2::Item), Tx1::Err>((t1, t2)),
                    (Err(e1), _) => out == Err::<(Tx1::Item, Tx2::Item), Tx1::Err>(e1),
                    (Ok(_), Err(e2)) => out == Err::<(Tx1::Item, Tx2::Item), Tx1::Err>(e2),
                }
            },
{
}

/// Whatever both children of a join can do one after the other, the join can
/// do: no run of the second child is left out because the first failed.
pub proof fn lemma_join_runs_both<Tx1, Tx2>(
    tx: Join<Tx1, Tx2>,
    pre: Tx1::Ctx,
    mid: Tx1::Ctx,
    post: Tx1::Ctx,
    r1: Result<Tx1::Item, Tx1::Err>,
    r2: Result<Tx2::Item, Tx1::Err>,
) where Tx1: Transaction, Tx2: Transaction<Ctx = Tx1::Ctx, Err = Tx1::Err>
    requires
        tx.first().runs(pre, mid, r1),
        tx.second().runs(mid, post, r2),
    ensures
        tx.runs(pre, post, joined(r1, r2)),
{
}

type Pair<A, B> = (A, B);

impl<Ctx, Tx1, Tx2> IntoTransaction<Ctx> for Pair<Tx1, Tx2> where
    Tx1: IntoTransaction<Ctx>,
    Tx2: IntoTransaction<Ctx, Err = Tx1::Err>,
 {
    type Tx = Join<Tx1::Tx, Tx2::Tx>;

    type Err = Tx1::Err;

    type Item = (Tx1::Item, Tx2::Item);

    closed spec fn lifted(self) -> Join<Tx1::Tx, Tx2::Tx> {
        Join { tx1: self.0.lifted(), tx2: self.1.lifted() }
    }

    fn into_transaction(self) -> (tx: Join<Tx1::Tx, Tx2::Tx>) {
        let (tx1, tx2) = self;
        join(tx1.into_transaction(), tx2.into_transaction())
    }
}

/// A pair is lifted to the join of what its parts are lifted to.
pub proof fn lemma_pair_lifted<Ctx, Tx1, Tx2>(pair: (Tx1, Tx2)) where
    Tx1: IntoTransaction<Ctx>,
    Tx2: IntoTransaction<Ctx, Err = Tx1::Err>,

    ensures
        IntoTransaction::<Ctx>::lifted(pair).first() == pair.0.lifted(),
        IntoTransaction::<Ctx>::lifted(pair).second() == pair.1.lifted(),
{
}

} // verus!
