use crate::{IntoTransaction, Transaction};
use std::marker::PhantomData;
use vstd::prelude::*;

verus! {

/// Falls back after a failure: after a failure of `a`, `f` builds the next
/// transaction from the error, and that one runs on the same context. After a
/// success of `a`, `f` is not called and the item is returned.
pub fn or_else<Ctx, A, F, B>(a: A, f: F) -> (tx: OrElse<A::Tx, F, B>) where
    A: IntoTransaction<Ctx>,
    B: IntoTransaction<Ctx, Item = A::Item>,
    F: Fn(A::Err) -> B,

    ensures
        tx.first() == a.lifted(),
        tx.func() == f,
{
    OrElse { tx: a.into_transaction(), f: f, _phantom: PhantomData }
}

/// The result of [`or_else`].
#[derive(Debug)]
#[must_use]
pub struct OrElse<Tx1, F, Tx2> {
    tx: Tx1,
    f: F,
    _phantom: PhantomData<Tx2>,
}

impl<Tx1, F, Tx2> OrElse<Tx1, F, Tx2> {
    /// The transaction that runs first.
    pub closed spec fn first(&self) -> Tx1 {
        self.tx
    }

    /// The function that builds the fallback from the error of the first.
    pub closed spec fn func(&self) -> F {
        self.f
    }
}

impl<Tx, Tx2, F> Transaction for OrElse<Tx, F, Tx2> where
    Tx2: IntoTransaction<Tx::Ctx, Item = Tx::Item, Err = Tx::Err>,
    Tx: Transaction,
    F: Fn(Tx::Err) -> Tx2,
 {
    type Ctx = Tx::Ctx;

    type Item = Tx::Item;

    type Err = Tx::Err;

    open spec fn can_run(&self, ctx: Tx::Ctx) -> bool {
        &&& self.first().can_run(ctx)
        &&& forall|mid: Tx::Ctx, error: Tx::Err| #[trigger]
            self.first().runs(ctx, mid, Err(error)) ==> {
                &&& call_requires(self.func(), (error,))
                &&& forall|next: Tx2| #[trigger]
                    call_ensures(self.func(), (error,), next) ==> next.lifted().can_run(mid)
            }
    }

    open spec fn runs(&self, pre: Tx::Ctx, post: Tx::Ctx, out: Result<Tx::Item, Tx::Err>) -> bool {
        ||| exists|item: Tx::Item| #[trigger]
            self.first().runs(pre, post, Ok(item)) && out == Ok::<Tx::Item, Tx::Err>(item)
        ||| exists|mid: Tx::Ctx, error: Tx::Err, next: Tx2|
            {
                &&& #[trigger] self.first().runs(pre, mid, Err(error))
                &&& #[trigger] call_ensures(self.func(), (error,), next)
                &&& next.lifted().runs(mid, post, out)
            }
    }

    fn run(&self, ctx: &mut Tx::Ctx) -> (out: Result<Tx::Item, Tx::Err>) {
        match self.tx.run(ctx) {
            Ok(item) => Ok(item),
            Err(error) => (self.f)(error).into_transaction().run(ctx),
        }
    }
}

} // verus!
