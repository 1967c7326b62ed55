use crate::Transaction;
use vstd::prelude::*;

verus! {

/// Picks the arm of a two-way branch that a transaction stands in.
#[derive(Debug)]
#[must_use]
pub struct BranchBuilder<Tx>(Tx);

impl<Tx> BranchBuilder<Tx> {
    /// The transaction that waits for its arm.
    pub closed spec fn inner(&self) -> Tx {
        self.0
    }

    pub fn new(tx: Tx) -> (b: Self)
        ensures
            b.inner() == tx,
    {
        BranchBuilder(tx)
    }

    /// The transaction as the first arm of a branch whose other arm is a `B`.
    pub fn first<B>(self) -> (tx: Branch<Tx, B>)
        ensures
            tx == Branch::<Tx, B>::B1(self.inner()),
    {
        Branch::B1(self.0)
    }

    /// The transaction as the second arm of a branch whose other arm is a `B`.
    pub fn second<B>(self) -> (tx: Branch<B, Tx>)
        ensures
            tx == Branch::<B, Tx>::B2(self.inner()),
    {
        Branch::B2(self.0)
    }
}

/// One of two transactions of different types on the same context, item and
/// error: the value at the point where two arms of control flow meet. Running it
/// runs the arm that it holds and nothing else.
#[derive(Debug)]
#[must_use]
pub enum Branch<Tx1, Tx2> {
    B1(Tx1),
    B2(Tx2),
}

impl<Tx1, Tx2> Transaction for Branch<Tx1, Tx2> where
    Tx1: Transaction,
    Tx2: Transaction<Ctx = Tx1::Ctx, Item = Tx1::Item, Err = Tx1::Err>,
 {
    type Ctx = Tx1::Ctx;

    type Item = Tx1::Item;

    type Err = Tx1::Err;

    open spec fn can_run(&self, ctx: Tx1::Ctx) -> bool {
        match *self {
            Branch::B1(tx) => tx.can_run(ctx),
            Branch::B2(tx) => tx.can_run(ctx),
        }
    }

    open spec fn runs(
        &self,
        pre: Tx1::Ctx,
        post: Tx1::Ctx,
        out: Result<Tx1::Item, Tx1::Err>,
    ) -> bool {
        match *self {
            Branch::B1(tx) => tx.runs(pre, post, out),
            Branch::B2(tx) => tx.runs(pre, post, out),
        }
    }

    fn run(&self, ctx: &mut Tx1::Ctx) -> (out: Result<Tx1::Item, Tx1::Err>) {
        match *self {
            Branch::B1(ref tx) => tx.run(ctx),
            Branch::B2(ref tx) => tx.run(ctx),
        }
    }
}

} // verus!
