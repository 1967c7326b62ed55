use crate::ok::TxOk;
use crate::{IntoTransaction, Transaction};
use std::marker::PhantomData;
use vstd::prelude::*;

verus! {

/// Turns a failure into a success: the error of a failed run goes through `f` and
/// comes out as the item. A success passes through as it is.
pub fn recover<Ctx, A, T, F>(a: A, f: F) -> (tx: Recover<A::Tx, T, F>) where
    A: IntoTransaction<Ctx>,
    F: Fn(A::Err) -> A::Item,

    ensures
        tx.inner() == a.lifted(),
        tx.func() == f,
{
    Recover { tx: a.into_transaction(), f: f, _phantom: PhantomData }
}

/// The result of [`recover`].
#[derive(Debug)]
#[must_use]
pub struct Recover<Tx, T, F> {
    tx: Tx,
    f: F,
    _phantom: PhantomData<T>,
}

impl<Tx, T, F> Recover<Tx, T, F> {
    /// The transaction that runs first.
    pub closed spec fn inner(&self) -> Tx {
        self.tx
    }

    /// The function applied to what the transaction returned.
    pub closed spec fn func(&self) -> F {
        self.f
    }
}

impl<Tx, F, T> Transaction for Recover<Tx, T, F> where
    Tx: Transaction,
    F: Fn(Tx::Err) -> Tx::Item,
 {
    type Ctx = Tx::Ctx;

    type Item = Tx::Item;

    type Err = Tx::Err;

    open spec fn can_run(&self, ctx: Tx::Ctx) -> bool {
        &&& self.inner().can_run(ctx)
        &&& forall|post: Tx::Ctx, error: Tx::Err| #[trigger]
            self.inner().runs(ctx, post, Err(error)) ==> call_requires(self.func(), (error,))
    }

    open spec fn runs(&self, pre: Tx::Ctx, post: Tx::Ctx, out: Result<Tx::Item, Tx::Err>) -> bool {
        exists|r: Result<Tx::Item, Tx::Err>| #[trigger]
            self.inner().runs(pre, post, r) && match r {
                Ok(item) => out == Ok::<Tx::Item, Tx::Err>(item),
                Err(error) => out matches Ok(recovered) && call_ensures(self.func(), (error,), recovered),
            }
    }

    fn run(&self, ctx: &mut Tx::Ctx) -> (out: Result<Tx::Item, Tx::Err>) {
        match self.tx.run(ctx) {
            Ok(item) => Ok(item),
            Err(error) => Ok((self.f)(error)),
        }
    }
}

/// Recovering from a leaf that cannot fail changes nothing: `ok(x).recover(f)`
/// may be run whatever `f` asks for, never calls `f`, leaves the context alone
/// and returns a clone of `x`.
pub proof fn lemma_recover_of_ok<Ctx, T, E, U, F>(
    tx: Recover<TxOk<Ctx, T, E>, U, F>,
    pre: Ctx,
    post: Ctx,
    out: Result<T, E>,
) where T: Clone, F: Fn(E) -> T
    ensures
        tx.can_run(pre),
        tx.runs(pre, post, out) <==> {
            &&& post == pre
            &&& out matches Ok(t)
            &&& cloned(tx.inner().value(), t)
        },
{
    if post == pre && out is Ok && cloned(tx.inner().value(), out->Ok_0) {
        assert(tx.inner().runs(pre, post, out));
    }
}

} // verus!
