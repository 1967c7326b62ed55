use crate::{IntoTransaction, Transaction};
use std::marker::PhantomData;
use vstd::prelude::*;

verus! {

/// The result of [`result`].
#[derive(Debug)]
#[must_use]
pub struct TxResult<Ctx, T, E> {
    r: Result<T, E>,
    _phantom: PhantomData<Ctx>,
}

/// Makes a leaf out of a result that is already there: every run returns a clone
/// of `r` and leaves the context alone.
pub fn result<Ctx, T, E>(r: Result<T, E>) -> (tx: TxResult<Ctx, T, E>)
    ensures
        tx.value() == r,
{
    TxResult { r: r, _phantom: PhantomData }
}

/// Whether `copy` is a clone of `r`: on the same side, holding a clone of what
/// `r` holds.
pub open spec fn cloned_result<T: Clone, E: Clone>(r: Result<T, E>, copy: Result<T, E>) -> bool {
    match r {
        Ok(t) => copy matches Ok(t2) && cloned(t, t2),
        Err(e) => copy matches Err(e2) && cloned(e, e2),
    }
}

impl<Ctx, T, E> TxResult<Ctx, T, E> {
    /// The result that the leaf holds.
    pub closed spec fn value(&self) -> Result<T, E> {
        self.r
    }
}

impl<Ctx, T, E> Transaction for TxResult<Ctx, T, E> where T: Clone, E: Clone {
    type Ctx = Ctx;

    type Item = T;

    type Err = E;

    open spec fn can_run(&self, ctx: Ctx) -> bool {
        true
    }

    open spec fn runs(&self, pre: Ctx, post: Ctx, out: Result<T, E>) -> bool {
        &&& post == pre
        &&& cloned_result(self.value(), out)
    }

    fn run(&self, _ctx: &mut Ctx) -> (out: Result<T, E>) {
        match &self.r {
            Ok(t) => Ok(t.clone()),
            Err(e) => Err(e.clone()),
        }
    }
}

impl<Ctx, T, E> IntoTransaction<Ctx> for Result<T, E> where T: Clone, E: Clone {
    type Tx = TxResult<Ctx, T, E>;

    type Err = E;

    type Item = T;

    closed spec fn lifted(self) -> TxResult<Ctx, T, E> {
        TxResult { r: self, _phantom: PhantomData }
    }

    fn into_transaction(self) -> (tx: TxResult<Ctx, T, E>) {
        result(self)
    }
}

/// A result is lifted to the leaf that holds it.
pub proof fn lemma_result_lifted<Ctx, T: Clone, E: Clone>(r: Result<T, E>)
    ensures
        IntoTransaction::<Ctx>::lifted(r).value() == r,
{
}

} // verus!
