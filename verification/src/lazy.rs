use crate::Transaction;
use std::marker::PhantomData;
use vstd::prelude::*;

verus! {

/// Makes a leaf that calls `f` anew on every run and returns what it returned.
/// The context is left alone. `f` may be called many times.
pub fn lazy<Ctx, F, T, E>(f: F) -> (tx: Lazy<Ctx, F>) where F: Fn() -> Result<T, E>
    ensures
        tx.func() == f,
{
    Lazy { f: f, _phantom: PhantomData }
}

/// The result of [`lazy`].
#[derive(Debug)]
#[must_use]
pub struct Lazy<Ctx, F> {
    f: F,
    _phantom: PhantomData<Ctx>,
}

impl<Ctx, F> Lazy<Ctx, F> {
    /// The function that each run calls.
    pub closed spec fn func(&self) -> F {
        self.f
    }
}

impl<Ctx, T, E, F> Transaction for Lazy<Ctx, F> where F: Fn() -> Result<T, E> {
    type Ctx = Ctx;

    type Item = T;

    type Err = E;

    open spec fn can_run(&self, ctx: Ctx) -> bool {
        call_requires(self.func(), ())
    }

    open spec fn runs(&self, pre: Ctx, post: Ctx, out: Result<T, E>) -> bool {
        &&& post == pre
        &&& call_ensures(self.func(), (), out)
    }

    fn run(&self, _ctx: &mut Ctx) -> (out: Result<T, E>) {
        (self.f)()
    }
}

} // verus!
