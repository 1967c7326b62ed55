use crate::{IntoTransaction, Transaction};
use std::marker::PhantomData;
use vstd::prelude::*;

verus! {

/// Turns a success into a failure: the item of a successful run goes through `f`
/// and comes out as the error. The node never succeeds, so its item can be of
/// any type `T`. This is how a branch of a computation returns early.
pub fn abort<Ctx, A, T, F>(a: A, f: F) -> (tx: Abort<A::Tx, T, F>) where
    A: IntoTransaction<Ctx>,
    F: Fn(A::Item) -> A::Err,

    ensures
        tx.inner() == a.lifted(),
        tx.func() == f,
{
    Abort { tx: a.into_transaction(), f: f, _phantom: PhantomData }
}

/// The result of [`abort`].
#[derive(Debug)]
#[must_use]
pub struct Abort<Tx, T, F> {
    tx: Tx,
    f: F,
    _phantom: PhantomData<T>,
}

impl<Tx, T, F> Abort<Tx, T, F> {
    /// The transaction that runs first.
    pub closed spec fn inner(&self) -> Tx {
        self.tx
    }

    /// The function applied to what the transaction returned.
    pub closed spec fn func(&self) -> F {
        self.f
    }
}

impl<Tx, F, T> Transaction for Abort<Tx, T, F> where
    Tx: Transaction,
    F: Fn(Tx::Item) -> Tx::Err,
 {
    type Ctx = Tx::Ctx;

    type Item = T;

    type Err = Tx::Err;

    open spec fn can_run(&self, ctx: Tx::Ctx) -> bool {
        &&& self.inner().can_run(ctx)
        &&& forall|post: Tx::Ctx, item: Tx::Item| #[trigger]
            self.inner().runs(ctx, post, Ok(item)) ==> call_requires(self.func(), (item,))
    }

    open spec fn runs(&self, pre: Tx::Ctx, post: Tx::Ctx, out: Result<T, Tx::Err>) -> bool {
        exists|r: Result<Tx::Item, Tx::Err>| #[trigger]
            self.inner().runs(pre, post, r) && match r {
                Ok(item) => out matches Err(raised) && call_ensures(self.func(), (item,), raised),
                Err(error) => out == Err::<T, Tx::Err>(error),
            }
    }

    fn run(&self, ctx: &mut Tx::Ctx) -> (out: Result<T, Tx::Err>) {
        match self.tx.run(ctx) {
            Ok(item) => Err((self.f)(item)),
            Err(error) => Err(error),
        }
    }
}

} // verus!
