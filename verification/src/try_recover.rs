use crate::{IntoTransaction, Transaction};
use std::marker::PhantomData;
use vstd::prelude::*;

verus! {

/// Lets `f` decide about a failure: what `f` returns for the error of a failed
/// run, an item or an error of another type `B`, is the outcome. A success passes
/// through as it is.
pub fn try_recover<Ctx, A, F, B>(a: A, f: F) -> (tx: TryRecover<A::Tx, F, B>) where
    A: IntoTransaction<Ctx>,
    F: Fn(A::Err) -> Result<A::Item, B>,

    ensures
        tx.inner() == a.lifted(),
        tx.func() == f,
{
    TryRecover { tx: a.into_transaction(), f: f, _phantom: PhantomData }
}

/// The result of [`try_recover`].
#[derive(Debug)]
#[must_use]
pub struct TryRecover<Tx, F, B> {
    tx: Tx,
    f: F,
    _phantom: PhantomData<B>,
}

impl<Tx, F, B> TryRecover<Tx, F, B> {
    /// The transaction that runs first.
    pub closed spec fn inner(&self) -> Tx {
        self.tx
    }

    /// The function applied to what the transaction returned.
    pub closed spec fn func(&self) -> F {
        self.f
    }
}

impl<Tx, F, B> Transaction for TryRecover<Tx, F, B> where
    Tx: Transaction,
    F: Fn(Tx::Err) -> Result<Tx::Item, B>,
 {
    type Ctx = Tx::Ctx;

    type Item = Tx::Item;

    type Err = B;

    open spec fn can_run(&self, ctx: Tx::Ctx) -> bool {
        &&& self.inner().can_run(ctx)
        &&& forall|post: Tx::Ctx, error: Tx::Err| #[trigger]
            self.inner().runs(ctx, post, Err(error)) ==> call_requires(self.func(), (error,))
    }

    open spec fn runs(&self, pre: Tx::Ctx, post: Tx::Ctx, out: Result<Tx::Item, B>) -> bool {
        exists|r: Result<Tx::Item, Tx::Err>| #[trigger]
            self.inner().runs(pre, post, r) && match r {
                Ok(item) => out == Ok::<Tx::Item, B>(item),
                Err(error) => call_ensures(self.func(), (error,), out),
            }
    }

    fn run(&self, ctx: &mut Tx::Ctx) -> (out: Result<Tx::Item, B>) {
        match self.tx.run(ctx) {
            Ok(item) => Ok(item),
            Err(error) => (self.f)(error),
        }
    }
}

} // verus!
