use crate::Transaction;
use vstd::prelude::*;

verus! {

/// Picks the arm of a three-way branch that a transaction stands in.
#[derive(Debug)]
#[must_use]
pub struct Branch3Builder<Tx>(Tx);

impl<Tx> Branch3Builder<Tx> {
    /// The transaction that waits for its arm.
    pub closed spec fn inner(&self) -> Tx {
        self.0
    }

    pub fn new(tx: Tx) -> (b: Self)
        ensures
            b.inner() == tx,
    {
        Branch3Builder(tx)
    }

    /// The transaction as the first arm; the other arms are a `B` and a `C`.
    pub fn first<B, C>(self) -> (tx: Branch3<Tx, B, C>)
        ensures
            tx == Branch3::<Tx, B, C>::B1(self.inner()),
    {
        Branch3::B1(self.0)
    }

    /// The transaction as the second arm; the other arms are a `B` and a `C`.
    pub fn second<B, C>(self) -> (tx: Branch3<B, Tx, C>)
        ensures
            tx == Branch3::<B, Tx, C>::B2(self.inner()),
    {
        Branch3::B2(self.0)
    }

    /// The transaction as the third arm; the other arms are a `B` and a `C`.
    pub fn third<B, C>(self) -> (tx: Branch3<B, C, Tx>)
        ensures
            tx == Branch3::<B, C, Tx>::B3(self.inner()),
    {
        Branch3::B3(self.0)
    }
}

/// One of three transactions of different types on the same context, item and
/// error. Running it runs the arm that it holds and nothing else.
#[derive(Debug)]
#[must_use]
pub enum Branch3<Tx1, Tx2, Tx3> {
    B1(Tx1),
    B2(Tx2),
    B3(Tx3),
}

impl<Tx1, Tx2, Tx3> Transaction for Branch3<Tx1, Tx2, Tx3> where
    Tx1: Transaction,
    Tx2: Transaction<Ctx = Tx1::Ctx, Item = Tx1::Item, Err = Tx1::Err>,
    Tx3: Transaction<Ctx = Tx1::Ctx, Item = Tx1::Item, Err = Tx1::Err>,
 {
    type Ctx = Tx1::Ctx;

    type Item = Tx1::Item;

    type Err = Tx1::Err;

    open spec fn can_run(&self, ctx: Tx1::Ctx) -> bool {
        match *self {
            Branch3::B1(tx) => tx.can_run(ctx),
            Branch3::B2(tx) => tx.can_run(ctx),
            Branch3::B3(tx) => tx.can_run(ctx),
        }
    }

    open spec fn runs(
        &self,
        pre: Tx1::Ctx,
        post: Tx1::Ctx,
        out: Result<Tx1::Item, Tx1::Err>,
    ) -> bool {
        match *self {
            Branch3::B1(tx) => tx.runs(pre, post, out),
            Branch3::B2(tx) => tx.runs(pre, post, out),
            Branch3::B3(tx) => tx.runs(pre, post, out),
        }
    }

    fn run(&self, ctx: &mut Tx1::Ctx) -> (out: Result<Tx1::Item, Tx1::Err>) {
        match *self {
            Branch3::B1(ref tx) => tx.run(ctx),
            Branch3::B2(ref tx) => tx.run(ctx),
            Branch3::B3(ref tx) => tx.run(ctx),
        }
    }
}

} // verus!
