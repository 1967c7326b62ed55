use crate::{IntoTransaction, Transaction};
use std::marker::PhantomData;
use vstd::prelude::*;

verus! {

/// Lets `f` decide about a success: what `f` returns for the item of a
/// successful run, an item or an error, is the outcome. A failure passes through
/// as it is.
pub fn try_abort<Ctx, A, F, B>(a: A, f: F) -> (tx: TryAbort<A::Tx, F, B>) where
    A: IntoTransaction<Ctx>,
    F: Fn(A::Item) -> Result<B, A::Err>,

    ensures
        tx.inner() == a.lifted(),
        tx.func() == f,
{
    TryAbort { tx: a.into_transaction(), f: f, _phantom: PhantomData }
}

/// The result of [`try_abort`].
#[derive(Debug)]
#[must_use]
pub struct TryAbort<Tx, F, B> {
    tx: Tx,
    f: F,
    _phantom: PhantomData<B>,
}

impl<Tx, F, B> TryAbort<Tx, F, B> {
    /// The transaction that runs first.
    pub closed spec fn inner(&self) -> Tx {
        self.tx
    }

    /// The function applied to what the transaction returned.
    pub closed spec fn func(&self) -> F {
        self.f
    }
}

impl<Tx, F, B> Transaction for TryAbort<Tx, F, B> where
    Tx: Transaction,
    F: Fn(Tx::Item) -> Result<B, Tx::Err>,
 {
    type Ctx = Tx::Ctx;

    type Item = B;

    type Err = Tx::Err;

    open spec fn can_run(&self, ctx: Tx::Ctx) -> bool {
        &&& self.inner().can_run(ctx)
        &&& forall|post: Tx::Ctx, item: Tx::Item| #[trigger]
            self.inner().runs(ctx, post, Ok(item)) ==> call_requires(self.func(), (item,))
    }

    open spec fn runs(&self, pre: Tx::Ctx, post: Tx::Ctx, out: Result<B, Tx::Err>) -> bool {
        exists|r: Result<Tx::Item, Tx::Err>| #[trigger]
            self.inner().runs(pre, post, r) && match r {
                Ok(item) => call_ensures(self.func(), (item,), out),
                Err(error) => out == Err::<B, Tx::Err>(error),
            }
    }

    fn run(&self, ctx: &mut Tx::Ctx) -> (out: Result<B, Tx::Err>) {
        match self.tx.run(ctx) {
            Ok(item) => (self.f)(item),
            Err(error) => Err(error),
        }
    }
}

} // verus!
