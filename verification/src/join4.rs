use crate::{IntoTransaction, Transaction};
use vstd::prelude::*;

verus! {

/// Joins four independent transactions on one context. All four run, from left
/// to right, whatever the earlier ones returned; the first failure from the left
/// is the failure of the whole.
pub fn join4<
    Ctx,
    A: IntoTransaction<Ctx>,
    B: IntoTransaction<Ctx, Err = A::Err>,
    C: IntoTransaction<Ctx, Err = A::Err>,
    D: IntoTransaction<Ctx, Err = A::Err>,
>(a: A, b: B, c: C, d: D) -> (tx: Join4<A::Tx, B::Tx, C::Tx, D::Tx>)
    ensures
        tx.first() == a.lifted(),
        tx.second() == b.lifted(),
        tx.third() == c.lifted(),
        tx.fourth() == d.lifted(),
{
    Join4 {
        tx1: a.into_transaction(),
        tx2: b.into_transaction(),
        tx3: c.into_transaction(),
        tx4: d.into_transaction(),
    }
}

/// What a join of four returns when its children returned `r1` to `r4`: all four
/// items, or the leftmost error.
pub open spec fn joined4<T1, T2, T3, T4, E>(
    r1: Result<T1, E>,
    r2: Result<T2, E>,
    r3: Result<T3, E>,
    r4: Result<T4, E>,
) -> Result<(T1, T2, T3, T4), E> {
    match (r1, r2, r3, r4) {
        (Ok(t1), Ok(t2), Ok(t3), Ok(t4)) => Ok((t1, t2, t3, t4)),
        (Err(e), _, _, _) => Err(e),
        (_, Err(e), _, _) => Err(e),
        (_, _, Err(e), _) => Err(e),
        (_, _, _, Err(e)) => Err(e),
    }
}

/// The result of [`join4`].
#[derive(Debug)]
#[must_use]
pub struct Join4<Tx1, Tx2, Tx3, Tx4> {
    tx1: Tx1,
    tx2: Tx2,
    tx3: Tx3,
    tx4: Tx4,
}

impl<Tx1, Tx2, Tx3, Tx4> Join4<Tx1, Tx2, Tx3, Tx4> {
    /// The child that runs first.
    pub closed spec fn first(&self) -> Tx1 {
        self.tx1
    }

    /// The child that runs second.
    pub closed spec fn second(&self) -> Tx2 {
        self.tx2
    }

    /// The child that runs third.
    pub closed spec fn third(&self) -> Tx3 {
        self.tx3
    }

    /// The child that runs last.
    pub closed spec fn fourth(&self) -> Tx4 {
        self.tx4
    }
}

impl<Tx1, Tx2, Tx3, Tx4> Transaction for Join4<Tx1, Tx2, Tx3, Tx4> where
    Tx1: Transaction,
    Tx2: Transaction<Ctx = Tx1::Ctx, Err = Tx1::Err>,
    Tx3: Transaction<Ctx = Tx1::Ctx, Err = Tx1::Err>,
    Tx4: Transaction<Ctx = Tx1::Ctx, Err = Tx1::Err>,
 {
    type Ctx = Tx1::Ctx;

    type Item = (Tx1::Item, Tx2::Item, Tx3::Item, Tx4::Item);

    type Err = Tx1::Err;

    open spec fn can_run(&self, ctx: Tx1::Ctx) -> bool {
        &&& self.first().can_run(ctx)
        &&& forall|c1: Tx1::Ctx, r1: Result<Tx1::Item, Tx1::Err>| #[trigger]
            self.first().runs(ctx, c1, r1) ==> {
                &&& self.second().can_run(c1)
                &&& forall|c2: Tx1::Ctx, r2: Result<Tx2::Item, Tx1::Err>| #[trigger]
                    self.second().runs(c1, c2, r2) ==> {
                        &&& self.third().can_run(c2)
                        &&& forall|c3: Tx1::Ctx, r3: Result<Tx3::Item, Tx1::Err>| #[trigger]
                            self.third().runs(c2, c3, r3) ==> self.fourth().can_run(c3)
                    }
            }
    }

    open spec fn runs(
        &self,
        pre: Tx1::Ctx,
        post: Tx1::Ctx,
        out: Result<(Tx1::Item, Tx2::Item, Tx3::Item, Tx4::Item), Tx1::Err>,
    ) -> bool {
        exists|
            c1: Tx1::Ctx,
            c2: Tx1::Ctx,
            c3: Tx1::Ctx,
            r1: Result<Tx1::Item, Tx1::Err>,
            r2: Result<Tx2::Item, Tx1::Err>,
            r3: Result<Tx3::Item, Tx1::Err>,
            r4: Result<Tx4::Item, Tx1::Err>,
        |
            {
                &&& #[trigger] self.first().runs(pre, c1, r1)
                &&& #[trigger] self.second().runs(c1, c2, r2)
                &&& #[trigger] self.third().runs(c2, c3, r3)
                &&& #[trigger] self.fourth().runs(c3, post, r4)
                &&& out == joined4(r1, r2, r3, r4)
            }
    }

    fn run(&self, ctx: &mut Tx1::Ctx) -> (out: Result<
        (Tx1::Item, Tx2::Item, Tx3::Item, Tx4::Item),
        Tx1::Err,
    >) {
        let r1 = self.tx1.run(ctx);
        let r2 = self.tx2.run(ctx);
        let r3 = self.tx3.run(ctx);
        let r4 = self.tx4.run(ctx);
        match (r1, r2, r3, r4) {
            (Ok(t1), Ok(t2), Ok(t3), Ok(t4)) => Ok((t1, t2, t3, t4)),
            (Err(e), _, _, _) | (_, Err(e), _, _) | (_, _, Err(e), _) | (_, _, _, Err(e)) => Err(e),
        }
    }
}

type Quadruple<A, B, C, D> = (A, B, C, D);

impl<Ctx, Tx1, Tx2, Tx3, Tx4> IntoTransaction<Ctx> for Quadruple<Tx1, Tx2, Tx3, Tx4> where
    Tx1: IntoTransaction<Ctx>,
    Tx2: IntoTransaction<Ctx, Err = Tx1::Err>,
    Tx3: IntoTransaction<Ctx, Err = Tx1::Err>,
    Tx4: IntoTransaction<Ctx, Err = Tx1::Err>,
 {
    type Tx = Join4<Tx1::Tx, Tx2::Tx, Tx3::Tx, Tx4::Tx>;

    type Err = Tx1::Err;

    type Item = (Tx1::Item, Tx2::Item, Tx3::Item, Tx4::Item);

    closed spec fn lifted(self) -> Join4<Tx1::Tx, Tx2::Tx, Tx3::Tx, Tx4::Tx> {
        Join4 {
            tx1: self.0.lifted(),
            tx2: self.1.lifted(),
            tx3: self.2.lifted(),
            tx4: self.3.lifted(),
        }
    }

    fn into_transaction(self) -> (tx: Join4<Tx1::Tx, Tx2::Tx, Tx3::Tx, Tx4::Tx>) {
        let (tx1, tx2, tx3, tx4) = self;
        join4(
            tx1.into_transaction(),
            tx2.into_transaction(),
            tx3.into_transaction(),
            tx4.into_transaction(),
        )
    }
}

/// A tuple of four is lifted to the join of what its parts are lifted to.
pub proof fn lemma_quadruple_lifted<Ctx, Tx1, Tx2, Tx3, Tx4>(t: (Tx1, Tx2, Tx3, Tx4)) where
    Tx1: IntoTransaction<Ctx>,
    Tx2: IntoTransaction<Ctx, Err = Tx1::Err>,
    Tx3: IntoTransaction<Ctx, Err = Tx1::Err>,
    Tx4: IntoTransaction<Ctx, Err = Tx1::Err>,

    ensures
        IntoTransaction::<Ctx>::lifted(t).first() == t.0.lifted(),
        IntoTransaction::<Ctx>::lifted(t).second() == t.1.lifted(),
        IntoTransaction::<Ctx>::lifted(t).third() == t.2.lifted(),
        IntoTransaction::<Ctx>::lifted(t).fourth() == t.3.lifted(),
{
}

} // verus!
