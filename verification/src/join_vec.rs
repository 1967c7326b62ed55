use crate::join_all::{all_run, can_run_in_order, lifted_all, run_all};
use crate::{IntoTransaction, Transaction};
use vstd::prelude::*;

verus! {

/// Joins the transactions of a vector on one context. All of them run, in the
/// order of the vector, whatever the earlier ones returned; the first failure in
/// that order is the failure of the whole.
pub fn join_vec<Ctx, B>(vec: Vec<B>) -> (tx: JoinVec<B::Tx>) where B: IntoTransaction<Ctx>
    ensures
        tx.children() == lifted_all::<Ctx, B>(vec@),
{
    let ghost items = vec@;
    let mut children: Vec<B::Tx> = Vec::new();
    for b in it: vec.into_iter()
        invariant
            it.seq() == items,
            children@.len() == it.index(),
            forall|j: int| 0 <= j < children@.len() ==> #[trigger] children@[j] == items[j].lifted(),
    {
        children.push(b.into_transaction());
    }
    JoinVec { vec: children }
}

/// The result of [`join_vec`].
#[derive(Debug)]
#[must_use]
pub struct JoinVec<Tx> {
    vec: Vec<Tx>,
}

impl<Tx> JoinVec<Tx> {
    /// The children, in the order in which they run.
    pub closed spec fn children(&self) -> Seq<Tx> {
        self.vec@
    }
}

impl<Tx> Transaction for JoinVec<Tx> where Tx: Transaction {
    type Ctx = Tx::Ctx;

    type Item = Vec<Tx::Item>;

    type Err = Tx::Err;

    open spec fn can_run(&self, ctx: Tx::Ctx) -> bool {
        can_run_in_order(self.children(), ctx)
    }

    open spec fn runs(&self, pre: Tx::Ctx, post: Tx::Ctx, out: Result<Vec<Tx::Item>, Tx::Err>) -> bool {
        all_run(self.children(), pre, post, out)
    }

    fn run(&self, ctx: &mut Tx::Ctx) -> (out: Result<Vec<Tx::Item>, Tx::Err>) {
        run_all(&self.vec, ctx)
    }
}

} // verus!
