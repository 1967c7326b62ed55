use crate::Transaction;
use std::marker::PhantomData;
use vstd::prelude::*;

verus! {

/// Makes a leaf that fails with a clone of `e` on every run and leaves the
/// context alone.
pub fn err<Ctx, T, E>(e: E) -> (tx: TxErr<Ctx, T, E>)
    ensures
        tx.error() == e,
{
    TxErr { err: e, _phantom: PhantomData }
}

/// The result of [`err`].
#[derive(Debug)]
#[must_use]
pub struct TxErr<Ctx, T, E> {
    err: E,
    _phantom: PhantomData<(Ctx, T)>,
}

impl<Ctx, T, E> TxErr<Ctx, T, E> {
    /// The error that the leaf holds.
    pub closed spec fn error(&self) -> E {
        self.err
    }
}

impl<Ctx, T, E> Transaction for TxErr<Ctx, T, E> where E: Clone {
    type Ctx = Ctx;

    type Item = T;

    type Err = E;

    open spec fn can_run(&self, ctx: Ctx) -> bool {
        true
    }

    open spec fn runs(&self, pre: Ctx, post: Ctx, out: Result<T, E>) -> bool {
        &&& post == pre
        &&& out matches Err(e)
        &&& cloned(self.error(), e)
    }

    fn run(&self, _ctx: &mut Ctx) -> (out: Result<T, E>) {
        Err(self.err.clone())
    }
}

} // verus!
