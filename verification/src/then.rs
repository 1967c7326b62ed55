use crate::{IntoTransaction, Transaction};
use std::marker::PhantomData;
use vstd::prelude::*;

verus! {

/// Goes on with whatever the first transaction returned: `f` gets the whole
/// outcome of `a`, success or failure, and builds the transaction that runs next
/// on the same context. This is the one combinator whose second step always
/// runs.
pub fn then<Ctx, A, F, B, Tx2>(a: A, f: F) -> (tx: Then<A::Tx, F, Tx2>) where
    A: IntoTransaction<Ctx>,
    Tx2: IntoTransaction<Ctx, Item = B, Err = A::Err>,
    F: Fn(Result<A::Item, A::Err>) -> Tx2,

    ensures
        tx.first() == a.lifted(),
        tx.func() == f,
{
    Then { tx: a.into_transaction(), f: f, _phantom: PhantomData }
}

/// The result of [`then`].
#[derive(Debug)]
#[must_use]
pub struct Then<Tx1, F, Tx2> {
    tx: Tx1,
    f: F,
    _phantom: PhantomData<Tx2>,
}

impl<Tx1, F, Tx2> Then<Tx1, F, Tx2> {
    /// The transaction that runs first.
    pub closed spec fn first(&self) -> Tx1 {
        self.tx
    }

    /// The function that builds the second step from the outcome of the first.
    pub closed spec fn func(&self) -> F {
        self.f
    }
}

impl<Tx, Tx2, F> Transaction for Then<Tx, F, Tx2> where
    Tx2: IntoTransaction<Tx::Ctx, Err = Tx::Err>,
    Tx: Transaction,
    F: Fn(Result<Tx::Item, Tx::Err>) -> Tx2,
 {
    type Ctx = Tx::Ctx;

    type Item = Tx2::Item;

    type Err = Tx2::Err;

    open spec fn can_run(&self, ctx: Tx::Ctx) -> bool {
        &&& self.first().can_run(ctx)
        &&& forall|mid: Tx::Ctx, r: Result<Tx::Item, Tx::Err>| #[trigger]
            self.first().runs(ctx, mid, r) ==> {
                &&& call_requires(self.func(), (r,))
                &&& forall|next: Tx2| #[trigger]
                    call_ensures(self.func(), (r,), next) ==> next.lifted().can_run(mid)
            }
    }

    open spec fn runs(
        &self,
        pre: Tx::Ctx,
        post: Tx::Ctx,
        out: Result<Tx2::Item, Tx2::Err>,
    ) -> bool {
        exists|mid: Tx::Ctx, r: Result<Tx::Item, Tx::Err>, next: Tx2|
            {
                &&& #[trigger] self.first().runs(pre, mid, r)
                &&& #[trigger] call_ensures(self.func(), (r,), next)
                &&& next.lifted().runs(mid, post, out)
            }
    }

    fn run(&self, ctx: &mut Tx::Ctx) -> (out: Result<Tx2::Item, Tx2::Err>) {
        let r = self.tx.run(ctx);
        (self.f)(r).into_transaction().run(ctx)
    }
}

} // verus!
