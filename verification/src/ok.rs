use crate::Transaction;
use std::marker::PhantomData;
use vstd::prelude::*;

verus! {

/// Makes a leaf that succeeds with a clone of `t` on every run and leaves the
/// context alone.
pub fn ok<Ctx, T, E>(t: T) -> (tx: TxOk<Ctx, T, E>)
    ensures
        tx.value() == t,
{
    TxOk { ok: t, _phantom: PhantomData }
}

/// The result of [`ok`].
#[derive(Debug)]
#[must_use]
pub struct TxOk<Ctx, T, E> {
    ok: T,
    _phantom: PhantomData<(Ctx, E)>,
}

impl<Ctx, T, E> TxOk<Ctx, T, E> {
    /// The value that the leaf holds.
    pub closed spec fn value(&self) -> T {
        self.ok
    }
}

impl<Ctx, T, E> Transaction for TxOk<Ctx, T, E> where T: Clone {
    type Ctx = Ctx;

    type Item = T;

    type Err = E;

    open spec fn can_run(&self, ctx: Ctx) -> bool {
        true
    }

    open spec fn runs(&self, pre: Ctx, post: Ctx, out: Result<T, E>) -> bool {
        &&& post == pre
        &&& out matches Ok(t)
        &&& cloned(self.value(), t)
    }

    fn run(&self, _ctx: &mut Ctx) -> (out: Result<T, E>) {
        Ok(self.ok.clone())
    }
}

} // verus!
