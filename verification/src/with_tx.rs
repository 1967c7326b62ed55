//! A leaf for software transactional memory: the context is the transaction of
//! the `stm` crate.

use crate::with_ctx::{dispatch, observe};
use crate::Transaction;
use stm::Transaction as Stm;
use vstd::prelude::*;

verus! {

/// `stm::Transaction`: the log of the variables that one attempt of an STM
/// transaction has read and written. It is carried through as it is; nothing of
/// what it holds is known here.
#[verifier::external_type_specification]
#[verifier::external_body]
pub struct ExStm(Stm);

/// Makes a leaf that hands the STM transaction to `f` and returns what `f`
/// returned.
pub fn with_tx<F, T, E>(f: F) -> (tx: WithTx<F>) where F: Fn(&mut Stm) -> Result<T, E>
    ensures
        tx.func() == f,
{
    WithTx { f: f }
}

/// The result of [`with_tx`].
pub struct WithTx<F> {
    f: F,
}

impl<F> WithTx<F> {
    /// The function that each run calls on the STM transaction.
    pub closed spec fn func(&self) -> F {
        self.f
    }
}

impl<F, T, E> WithTx<F> where F: Fn(&mut Stm) -> Result<T, E> {
    /// What the relation of the leaf means: a run from `pre` that leaves `post`
    /// and returns `out` is a call of the function on a reference that held
    /// `pre`, holds `post` in the end, and for which the function returned `out`.
    pub proof fn lemma_runs(self, pre: Stm, post: Stm, out: Result<T, E>)
        requires
            self.runs(pre, post, out),
        ensures
            exists|r: &mut Stm|
                *r == pre && *final(r) == post && call_ensures(self.func(), (r,), out),
    {
    }
}

impl<F, T, E> Transaction for WithTx<F> where F: Fn(&mut Stm) -> Result<T, E> {
    type Ctx = Stm;

    type Item = T;

    type Err = E;

    open spec fn can_run(&self, ctx: Stm) -> bool {
        forall|r: &mut Stm| *r == ctx ==> call_requires(self.func(), (r,))
    }

    closed spec fn runs(
        &self,
        pre: Stm,
        post: Stm,
        out: Result<T, E>,
    ) -> bool {
        exists|r: &mut Stm, left: Ghost<Stm>|
            *r == pre && left@ == post && call_ensures(
                observe::<Stm, T, E, F>,
                (&self.f, r),
                (out, left),
            )
    }

    fn run(&self, ctx: &mut Stm) -> (out: Result<T, E>) {
        let (out, _) = dispatch(observe::<Stm, T, E, F>, &self.f, ctx);
        out
    }
}

} // verus!
