use crate::{IntoTransaction, Transaction};
use vstd::prelude::*;

verus! {

/// Applies `f` to the error of a failed run; a success passes through as it is.
pub fn map_err<Ctx, A, F, B>(a: A, f: F) -> (tx: MapErr<A::Tx, F>) where
    A: IntoTransaction<Ctx>,
    F: Fn(A::Err) -> B,

    ensures
        tx.inner() == a.lifted(),
        tx.func() == f,
{
    MapErr { tx: a.into_transaction(), f: f }
}

/// The result of [`map_err`].
#[derive(Debug)]
#[must_use]
pub struct MapErr<Tx, F> {
    tx: Tx,
    f: F,
}

impl<Tx, F> MapErr<Tx, F> {
    /// The transaction that runs first.
    pub closed spec fn inner(&self) -> Tx {
        self.tx
    }

    /// The function applied to what the transaction returned.
    pub closed spec fn func(&self) -> F {
        self.f
    }
}

impl<E, Tx, F> Transaction for MapErr<Tx, F> where
    Tx: Transaction,
    F: Fn(Tx::Err) -> E,
 {
    type Ctx = Tx::Ctx;

    type Item = Tx::Item;

    type Err = E;

    open spec fn can_run(&self, ctx: Tx::Ctx) -> bool {
        &&& self.inner().can_run(ctx)
        &&& forall|post: Tx::Ctx, error: Tx::Err| #[trigger]
            self.inner().runs(ctx, post, Err(error)) ==> call_requires(self.func(), (error,))
    }

    open spec fn runs(&self, pre: Tx::Ctx, post: Tx::Ctx, out: Result<Tx::Item, E>) -> bool {
        exists|r: Result<Tx::Item, Tx::Err>| #[trigger]
            self.inner().runs(pre, post, r) && match r {
                Ok(item) => out == Ok::<Tx::Item, E>(item),
                Err(error) => out matches Err(mapped) && call_ensures(self.func(), (error,), mapped),
            }
    }

    fn run(&self, ctx: &mut Tx::Ctx) -> (out: Result<Tx::Item, E>) {
        match self.tx.run(ctx) {
            Ok(item) => Ok(item),
            Err(error) => Err((self.f)(error)),
        }
    }
}

} // verus!
