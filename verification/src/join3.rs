use crate::{IntoTransaction, Transaction};
use vstd::prelude::*;

verus! {

/// Joins three independent transactions on one context. All three run, from
/// left to right, whatever the earlier ones returned; the first failure from the
/// left is the failure of the whole.
pub fn join3<
    Ctx,
    A: IntoTransaction<Ctx>,
    B: IntoTransaction<Ctx, Err = A::Err>,
    C: IntoTransaction<Ctx, Err = A::Err>,
>(a: A, b: B, c: C) -> (tx: Join3<A::Tx, B::Tx, C::Tx>)
    ensures
        tx.first() == a.lifted(),
        tx.second() == b.lifted(),
        tx.third() == c.lifted(),
{
    Join3 { tx1: a.into_transaction(), tx2: b.into_transaction(), tx3: c.into_transaction() }
}

/// What a join of three returns when its children returned `r1`, `r2` and `r3`:
/// all three items, or the leftmost error.
pub open spec fn joined3<T1, T2, T3, E>(
    r1: Result<T1, E>,
    r2: Result<T2, E>,
    r3: Result<T3, E>,
) -> Result<(T1, T2, T3), E> {
    match (r1, r2, r3) {
        (Ok(t1), Ok(t2), Ok(t3)) => Ok((t1, t2, t3)),
        (Err(e), _, _) => Err(e),
        (_, Err(e), _) => Err(e),
        (_, _, Err(e)) => Err(e),
    }
}

/// The result of [`join3`].
#[derive(Debug)]
#[must_use]
pub struct Join3<Tx1, Tx2, Tx3> {
    tx1: Tx1,
    tx2: Tx2,
    tx3: Tx3,
}

impl<Tx1, Tx2, Tx3> Join3<Tx1, Tx2, Tx3> {
    /// The child that runs first.
    pub closed spec fn first(&self) -> Tx1 {
        self.tx1
    }

    /// The child that runs second.
    pub closed spec fn second(&self) -> Tx2 {
        self.tx2
    }

    /// The child that runs last.
    pub closed spec fn third(&self) -> Tx3 {
        self.tx3
    }
}

impl<Tx1, Tx2, Tx3> Transaction for Join3<Tx1, Tx2, Tx3> where
    Tx1: Transaction,
    Tx2: Transaction<Ctx = Tx1::Ctx, Err = Tx1::Err>,
    Tx3: Transaction<Ctx = Tx1::Ctx, Err = Tx1::Err>,
 {
    type Ctx = Tx1::Ctx;

    type Item = (Tx1::Item, Tx2::Item, Tx3::Item);

    type Err = Tx1::Err;

    open spec fn can_run(&self, ctx: Tx1::Ctx) -> bool {
        &&& self.first().can_run(ctx)
        &&& forall|c1: Tx1::Ctx, r1: Result<Tx1::Item, Tx1::Err>| #[trigger]
            self.first().runs(ctx, c1, r1) ==> {
                &&& self.second().can_run(c1)
                &&& forall|c2: Tx1::Ctx, r2: Result<Tx2::Item, Tx1::Err>| #[trigger]
                    self.second().runs(c1, c2, r2) ==> self.third().can_run(c2)
            }
    }

    open spec fn runs(
        &self,
        pre: Tx1::Ctx,
        post: Tx1::Ctx,
        out: Result<(Tx1::Item, Tx2::Item, Tx3::Item), Tx1::Err>,
    ) -> bool {
        exists|
            c1: Tx1::Ctx,
            c2: Tx1::Ctx,
            r1: Result<Tx1::Item, Tx1::Err>,
            r2: Result<Tx2::Item, Tx1::Err>,
            r3: Result<Tx3::Item, Tx1::Err>,
        |
            {
                &&& #[trigger] self.first().runs(pre, c1, r1)
                &&& #[trigger] self.second().runs(c1, c2, r2)
                &&& #[trigger] self.third().runs(c2, post, r3)
                &&& out == joined3(r1, r2, r3)
            }
    }

    fn run(&self, ctx: &mut Tx1::Ctx) -> (out: Result<
        (Tx1::Item, Tx2::Item, Tx3::Item),
        Tx1::Err,
    >) {
        let r1 = self.tx1.run(ctx);
        let r2 = self.tx2.run(ctx);
        let r3 = self.tx3.run(ctx);
        match (r1, r2, r3) {
            (Ok(t1), Ok(t2), Ok(t3)) => Ok((t1, t2, t3)),
            (Err(e), _, _) | (_, Err(e), _) | (_, _, Err(e)) => Err(e),
        }
    }
}

type Triple<A, B, C> = (A, B, C);

impl<Ctx, Tx1, Tx2, Tx3> IntoTransaction<Ctx> for Triple<Tx1, Tx2, Tx3> where
    Tx1: IntoTransaction<Ctx>,
    Tx2: IntoTransaction<Ctx, Err = Tx1::Err>,
    Tx3: IntoTransaction<Ctx, Err = Tx1::Err>,
 {
    type Tx = Join3<Tx1::Tx, Tx2::Tx, Tx3::Tx>;

    type Err = Tx1::Err;

    type Item = (Tx1::Item, Tx2::Item, Tx3::Item);

    closed spec fn lifted(self) -> Join3<Tx1::Tx, Tx2::Tx, Tx3::Tx> {
        Join3 { tx1: self.0.lifted(), tx2: self.1.lifted(), tx3: self.2.lifted() }
    }

    fn into_transaction(self) -> (tx: Join3<Tx1::Tx, Tx2::Tx, Tx3::Tx>) {
        let (tx1, tx2, tx3) = self;
        join3(tx1.into_transaction(), tx2.into_transaction(), tx3.into_transaction())
    }
}

/// A tuple of three is lifted to the join of what its parts are lifted to.
pub proof fn lemma_triple_lifted<Ctx, Tx1, Tx2, Tx3>(t: (Tx1, Tx2, Tx3)) where
    Tx1: IntoTransaction<Ctx>,
    Tx2: IntoTransaction<Ctx, Err = Tx1::Err>,
    Tx3: IntoTransaction<Ctx, Err = Tx1::Err>,

    ensures
        IntoTransaction::<Ctx>::lifted(t).first() == t.0.lifted(),
        IntoTransaction::<Ctx>::lifted(t).second() == t.1.lifted(),
        IntoTransaction::<Ctx>::lifted(t).third() == t.2.lifted(),
{
}

} // verus!
