use crate::Transaction;
use vstd::prelude::*;

verus! {

/// Picks the arm of a four-way branch that a transaction stands in.
#[derive(Debug)]
#[must_use]
pub struct Branch4Builder<Tx>(Tx);

impl<Tx> Branch4Builder<Tx> {
    /// The transaction that waits for its arm.
    pub closed spec fn inner(&self) -> Tx {
        self.0
    }

    pub fn new(tx: Tx) -> (b: Self)
        ensures
            b.inner() == tx,
    {
        Branch4Builder(tx)
    }

    /// The transaction as the first arm; the other arms are a `B`, a `C` and a `D`.
    pub fn first<B, C, D>(self) -> (tx: Branch4<Tx, B, C, D>)
        ensures
            tx == Branch4::<Tx, B, C, D>::B1(self.inner()),
    {
        Branch4::B1(self.0)
    }

    /// The transaction as the second arm; the other arms are a `B`, a `C` and a `D`.
    pub fn second<B, C, D>(self) -> (tx: Branch4<B, Tx, C, D>)
        ensures
            tx == Branch4::<B, Tx, C, D>::B2(self.inner()),
    {
        Branch4::B2(self.0)
    }

    /// The transaction as the third arm; the other arms are a `B`, a `C` and a `D`.
    pub fn third<B, C, D>(self) -> (tx: Branch4<B, C, Tx, D>)
        ensures
            tx == Branch4::<B, C, Tx, D>::B3(self.inner()),
    {
        Branch4::B3(self.0)
    }

    /// The transaction as the fourth arm; the other arms are a `B`, a `C` and a `D`.
    pub fn fourth<B, C, D>(self) -> (tx: Branch4<B, C, D, Tx>)
        ensures
            tx == Branch4::<B, C, D, Tx>::B4(self.inner()),
    {
        Branch4::B4(self.0)
    }
}

/// One of four transactions of different types on the same context, item and
/// error. Running it runs the arm that it holds and nothing else.
#[derive(Debug)]
#[must_use]
pub enum Branch4<Tx1, Tx2, Tx3, Tx4> {
    B1(Tx1),
    B2(Tx2),
    B3(Tx3),
    B4(Tx4),
}

impl<Tx1, Tx2, Tx3, Tx4> Transaction for Branch4<Tx1, Tx2, Tx3, Tx4> where
    Tx1: Transaction,
    Tx2: Transaction<Ctx = Tx1::Ctx, Item = Tx1::Item, Err = Tx1::Err>,
    Tx3: Transaction<Ctx = Tx1::Ctx, Item = Tx1::Item, Err = Tx1::Err>,
    Tx4: Transaction<Ctx = Tx1::Ctx, Item = Tx1::Item, Err = Tx1::Err>,
 {
    type Ctx = Tx1::Ctx;

    type Item = Tx1::Item;

    type Err = Tx1::Err;

    open spec fn can_run(&self, ctx: Tx1::Ctx) -> bool {
        match *self {
            Branch4::B1(tx) => tx.can_run(ctx),
            Branch4::B2(tx) => tx.can_run(ctx),
            Branch4::B3(tx) => tx.can_run(ctx),
            Branch4::B4(tx) => tx.can_run(ctx),
        }
    }

    open spec fn runs(
        &self,
        pre: Tx1::Ctx,
        post: Tx1::Ctx,
        out: Result<Tx1::Item, Tx1::Err>,
    ) -> bool {
        match *self {
            Branch4::B1(tx) => tx.runs(pre, post, out),
            Branch4::B2(tx) => tx.runs(pre, post, out),
            Branch4::B3(tx) => tx.runs(pre, post, out),
            Branch4::B4(tx) => tx.runs(pre, post, out),
        }
    }

    fn run(&self, ctx: &mut Tx1::Ctx) -> (out: Result<Tx1::Item, Tx1::Err>) {
        match *self {
            Branch4::B1(ref tx) => tx.run(ctx),
            Branch4::B2(ref tx) => tx.run(ctx),
            Branch4::B3(ref tx) => tx.run(ctx),
            Branch4::B4(ref tx) => tx.run(ctx),
        }
    }
}

} // verus!
