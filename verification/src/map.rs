use crate::err::TxErr;
use crate::{IntoTransaction, Transaction};
use vstd::prelude::*;

verus! {

/// Applies `f` to the item of a successful run; a failure passes through as it
/// is.
pub fn map<Ctx, A, F, B>(a: A, f: F) -> (tx: TxMap<A::Tx, F>) where
    A: IntoTransaction<Ctx>,
    F: Fn(A::Item) -> B,

    ensures
        tx.inner() == a.lifted(),
        tx.func() == f,
{
    TxMap { tx: a.into_transaction(), f: f }
}

/// The result of [`map`].
#[derive(Debug)]
#[must_use]
pub struct TxMap<Tx, F> {
    tx: Tx,
    f: F,
}

impl<Tx, F> TxMap<Tx, F> {
    /// The transaction that runs first.
    pub closed spec fn inner(&self) -> Tx {
        self.tx
    }

    /// The function applied to what the transaction returned.
    pub closed spec fn func(&self) -> F {
        self.f
    }
}

impl<Tx, U, F> Transaction for TxMap<Tx, F> where
    Tx: Transaction,
    F: Fn(Tx::Item) -> U,
 {
    type Ctx = Tx::Ctx;

    type Item = U;

    type Err = Tx::Err;

    open spec fn can_run(&self, ctx: Tx::Ctx) -> bool {
        &&& self.inner().can_run(ctx)
        &&& forall|post: Tx::Ctx, item: Tx::Item| #[trigger]
            self.inner().runs(ctx, post, Ok(item)) ==> call_requires(self.func(), (item,))
    }

    open spec fn runs(&self, pre: Tx::Ctx, post: Tx::Ctx, out: Result<U, Tx::Err>) -> bool {
        exists|r: Result<Tx::Item, Tx::Err>| #[trigger]
            self.inner().runs(pre, post, r) && match r {
                Ok(item) => out matches Ok(mapped) && call_ensures(self.func(), (item,), mapped),
                Err(error) => out == Err::<U, Tx::Err>(error),
            }
    }

    fn run(&self, ctx: &mut Tx::Ctx) -> (out: Result<U, Tx::Err>) {
        match self.tx.run(ctx) {
            Ok(item) => Ok((self.f)(item)),
            Err(error) => Err(error),
        }
    }
}

/// Mapping a leaf that cannot succeed changes nothing: `err(e).map(f)` may be
/// run whatever `f` asks for, never calls `f`, leaves the context alone and
/// fails with a clone of `e`.
pub proof fn lemma_map_of_err<Ctx, T, E, U, F>(
    tx: TxMap<TxErr<Ctx, T, E>, F>,
    pre: Ctx,
    post: Ctx,
    out: Result<U, E>,
) where E: Clone, F: Fn(T) -> U
    ensures
        tx.can_run(pre),
        tx.runs(pre, post, out) <==> {
            &&& post == pre
            &&& out matches Err(e)
            &&& cloned(tx.inner().error(), e)
        },
{
    if post == pre && out is Err && cloned(tx.inner().error(), out->Err_0) {
        assert(tx.inner().runs(pre, post, Err::<T, E>(out->Err_0)));
    }
}

} // verus!
