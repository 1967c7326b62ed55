use crate::Transaction;
use std::marker::PhantomData;
use vstd::prelude::*;

verus! {

/// Makes a leaf that hands the context to `f` and returns what `f` returned.
/// This is the leaf through which the work of a backend enters a transaction:
/// a query on a connection, a read or a write of a transactional variable.
pub fn with_ctx<Ctx, F, T, E>(f: F) -> (tx: WithCtx<Ctx, F>) where F: Fn(&mut Ctx) -> Result<T, E>
    ensures
        tx.func() == f,
{
    WithCtx { f: f, _phantom: PhantomData }
}

/// The result of [`with_ctx`].
#[derive(Debug)]
#[must_use]
pub struct WithCtx<Ctx, F> {
    f: F,
    _phantom: PhantomData<Ctx>,
}

/// Calls `f` on `ctx` and hands back, beside what `f` returned, the context that
/// `f` left, as a ghost value.
///
/// A specification function cannot speak of the value that a mutable reference
/// will hold in the end; the contract of a function can. The relation of a leaf
/// that works on the context is stated through the contract of this function.
pub(crate) fn observe<Ctx, T, E, F>(f: &F, ctx: &mut Ctx) -> (res: (Result<T, E>, Ghost<Ctx>)) where
    F: Fn(&mut Ctx) -> Result<T, E>,

    requires
        forall|r: &mut Ctx| *r == *old(ctx) ==> call_requires(*f, (r,)),
    ensures
        exists|r: &mut Ctx|
            *r == *old(ctx) && *final(r) == *final(ctx) && call_ensures(*f, (r,), res.0),
        res.1@ == *final(ctx),
{
    let out = f(ctx);
    (out, Ghost(*ctx))
}

/// Calls `g` on `f` and `ctx` as a function value, so that the call is recorded
/// as one that met the contract of `g`.
pub(crate) fn dispatch<Ctx, F, G, R>(g: G, f: &F, ctx: &mut Ctx) -> (res: R) where
    G: Fn(&F, &mut Ctx) -> R,

    requires
        forall|r: &mut Ctx| *r == *old(ctx) ==> call_requires(g, (f, r)),
    ensures
        exists|r: &mut Ctx|
            *r == *old(ctx) && *final(r) == *final(ctx) && call_ensures(g, (f, r), res),
{
    g(f, ctx)
}

impl<Ctx, F> WithCtx<Ctx, F> {
    /// The function that each run calls on the context.
    pub closed spec fn func(&self) -> F {
        self.f
    }
}

impl<Ctx, T, E, F> WithCtx<Ctx, F> where F: Fn(&mut Ctx) -> Result<T, E> {
    /// What the relation of the leaf means: a run from `pre` that leaves `post`
    /// and returns `out` is a call of the function on a reference that held
    /// `pre`, holds `post` in the end, and for which the function returned `out`.
    pub proof fn lemma_runs(self, pre: Ctx, post: Ctx, out: Result<T, E>)
        requires
            self.runs(pre, post, out),
        ensures
            exists|r: &mut Ctx|
                *r == pre && *final(r) == post && call_ensures(self.func(), (r,), out),
    {
    }

    /// The leaf adds no chance of its own. Where the function is determined by
    /// the context it is handed (two calls on references that hold the same
    /// value return the same and leave the same), two runs of the leaf from
    /// equal contexts return the same and leave equal contexts.
    pub proof fn lemma_runs_alike(
        self,
        pre: Ctx,
        post1: Ctx,
        out1: Result<T, E>,
        post2: Ctx,
        out2: Result<T, E>,
    )
        requires
            forall|r1: &mut Ctx, r2: &mut Ctx, o1: Result<T, E>, o2: Result<T, E>|
                *r1 == *r2 && #[trigger] call_ensures(self.func(), (r1,), o1)
                    && #[trigger] call_ensures(self.func(), (r2,), o2) ==> o1 == o2 && *final(r1)
                    == *final(r2),
            self.runs(pre, post1, out1),
            self.runs(pre, post2, out2),
        ensures
            out1 == out2,
            post1 == post2,
    {
        self.lemma_runs(pre, post1, out1);
        self.lemma_runs(pre, post2, out2);
    }
}

impl<Ctx, T, E, F> Transaction for WithCtx<Ctx, F> where F: Fn(&mut Ctx) -> Result<T, E> {
    type Ctx = Ctx;

    type Item = T;

    type Err = E;

    open spec fn can_run(&self, ctx: Ctx) -> bool {
        forall|r: &mut Ctx| *r == ctx ==> call_requires(self.func(), (r,))
    }

    closed spec fn runs(&self, pre: Ctx, post: Ctx, out: Result<T, E>) -> bool {
        exists|r: &mut Ctx, left: Ghost<Ctx>|
            *r == pre && left@ == post && call_ensures(
                observe::<Ctx, T, E, F>,
                (&self.f, r),
                (out, left),
            )
    }

    fn run(&self, ctx: &mut Ctx) -> (out: Result<T, E>) {
        let (out, _) = dispatch(observe::<Ctx, T, E, F>, &self.f, ctx);
        out
    }
}

} // verus!
