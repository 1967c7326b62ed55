use crate::outcomes::{all_succeeded_with, collected, first_failure};
use crate::{IntoTransaction, Transaction};
use vstd::prelude::*;

verus! {

/// Joins the transactions that an iterator yields, in the order in which it
/// yields them. All of them run, whatever the earlier ones returned; the first
/// failure in that order is the failure of the whole.
///
/// The iterator is emptied here, so it has to come to an end: it must be one
/// that keeps the laws of iterators and has a measure of what it has left, as
/// the iterators of vectors, slices and ranges do.
pub fn join_all<Ctx, I, B>(i: I) -> (tx: JoinAll<B::Tx>) where
    I: Iterator<Item = B>,
    B: IntoTransaction<Ctx>,

    requires
        vstd::std_specs::iter::IteratorSpec::obeys_prophetic_iter_laws(&i),
        vstd::std_specs::iter::IteratorSpec::decrease(&i) is Some,
    ensures
        tx.children() == lifted_all::<Ctx, B>(vstd::std_specs::iter::IteratorSpec::remaining(&i)),
{
    let ghost items = vstd::std_specs::iter::IteratorSpec::remaining(&i);
    let mut rest = i;
    let mut children: Vec<B::Tx> = Vec::new();
    loop
        invariant
            vstd::std_specs::iter::IteratorSpec::obeys_prophetic_iter_laws(&rest),
            vstd::std_specs::iter::IteratorSpec::decrease(&rest) is Some,
            children@.len() <= items.len(),
            vstd::std_specs::iter::IteratorSpec::remaining(&rest) == items.skip(
                children@.len() as int,
            ),
            forall|j: int| 0 <= j < children@.len() ==> #[trigger] children@[j] == items[j].lifted(),
        ensures
            children@.len() == items.len(),
            forall|j: int| 0 <= j < children@.len() ==> #[trigger] children@[j] == items[j].lifted(),
        decreases vstd::std_specs::iter::IteratorSpec::decrease(&rest)->0,
    {
        match rest.next() {
            Some(b) => {
                children.push(b.into_transaction());
            },
            None => {
                break ;
            },
        }
    }
    JoinAll { vec: children }
}

/// What each of `items` is lifted to, in the same order.
pub open spec fn lifted_all<Ctx, B: IntoTransaction<Ctx>>(items: Seq<B>) -> Seq<B::Tx> {
    Seq::new(items.len(), |i: int| items[i].lifted())
}

/// Whether `ctxs` and `outs` record runs of the first `outs.len()` of
/// `children`, one after the other on one context: child `i` starts in
/// `ctxs[i]`, leaves `ctxs[i + 1]` and returns `outs[i]`.
pub open spec fn ran_in_order<Tx: Transaction>(
    children: Seq<Tx>,
    ctxs: Seq<Tx::Ctx>,
    outs: Seq<Result<Tx::Item, Tx::Err>>,
) -> bool {
    &&& outs.len() <= children.len()
    &&& ctxs.len() == outs.len() + 1
    &&& forall|i: int|
        0 <= i < outs.len() ==> children[i].runs(ctxs[i], ctxs[i + 1], #[trigger] outs[i])
}

/// Whether all of `children` may be run one after the other from `ctx`: each
/// may be run from any context that the ones before it can leave.
pub open spec fn can_run_in_order<Tx: Transaction>(children: Seq<Tx>, ctx: Tx::Ctx) -> bool {
    forall|ctxs: Seq<Tx::Ctx>, outs: Seq<Result<Tx::Item, Tx::Err>>|
        {
            &&& #[trigger] ran_in_order(children, ctxs, outs)
            &&& ctxs[0] == ctx
            &&& outs.len() < children.len()
        } ==> children[outs.len() as int].can_run(ctxs.last())
}

/// Whether running all of `children` one after the other from `pre` may leave
/// `post` and give `out`: every child runs, and `out` collects what they
/// returned.
pub open spec fn all_run<Tx: Transaction>(
    children: Seq<Tx>,
    pre: Tx::Ctx,
    post: Tx::Ctx,
    out: Result<Vec<Tx::Item>, Tx::Err>,
) -> bool {
    exists|ctxs: Seq<Tx::Ctx>, outs: Seq<Result<Tx::Item, Tx::Err>>|
        {
            &&& #[trigger] ran_in_order(children, ctxs, outs)
            &&& outs.len() == children.len()
            &&& ctxs[0] == pre
            &&& ctxs.last() == post
            &&& collected(outs, out)
        }
}

/// Runs all of `children` one after the other on `ctx` and collects what they
/// returned.
pub(crate) fn run_all<Tx: Transaction>(children: &Vec<Tx>, ctx: &mut Tx::Ctx) -> (out: Result<
    Vec<Tx::Item>,
    Tx::Err,
>)
    requires
        can_run_in_order(children@, *old(ctx)),
    ensures
        all_run(children@, *old(ctx), *final(ctx), out),
{
    let ghost pre = *ctx;
    let ghost mut ctxs = seq![pre];
    let ghost mut outs = Seq::<Result<Tx::Item, Tx::Err>>::empty();
    let ghost mut failed_at: int = 0;
    let mut items = Vec::new();
    let mut failure: Option<Tx::Err> = None;
    for i in 0..children.len()
        invariant
            pre == *old(ctx),
            can_run_in_order(children@, pre),
            ran_in_order(children@, ctxs, outs),
            ctxs[0] == pre,
            ctxs.last() == *ctx,
            outs.len() == i,
            match failure {
                Some(e) => first_failure(outs, failed_at, e),
                None => all_succeeded_with(outs, items@),
            },
    {
        let r = children[i].run(ctx);
        proof {
            let ctxs2 = ctxs.push(*ctx);
            let outs2 = outs.push(r);
            assert forall|j: int| 0 <= j < outs2.len() implies children@[j].runs(
                ctxs2[j],
                ctxs2[j + 1],
                #[trigger] outs2[j],
            ) by {
                if j < outs.len() {
                    assert(children@[j].runs(ctxs[j], ctxs[j + 1], outs[j]));
                }
            }
            if failure is None && r is Err {
                failed_at = i as int;
            }
            ctxs = ctxs2;
            outs = outs2;
        }
        match r {
            Ok(t) => {
                if failure.is_none() {
                    items.push(t);
                }
            },
            Err(e) => {
                if failure.is_none() {
                    failure = Some(e);
                }
            },
        }
    }
    match failure {
        Some(e) => {
            assert(first_failure(outs, failed_at, e));
            Err(e)
        },
        None => Ok(items),
    }
}

/// The result of [`join_all`].
#[derive(Debug)]
#[must_use]
pub struct JoinAll<Tx> {
    vec: Vec<Tx>,
}

impl<Tx> JoinAll<Tx> {
    /// The children, in the order in which they run.
    pub closed spec fn children(&self) -> Seq<Tx> {
        self.vec@
    }
}

impl<Tx> Transaction for JoinAll<Tx> where Tx: Transaction {
    type Ctx = Tx::Ctx;

    type Item = Vec<Tx::Item>;

    type Err = Tx::Err;

    open spec fn can_run(&self, ctx: Tx::Ctx) -> bool {
        can_run_in_order(self.children(), ctx)
    }

    open spec fn runs(&self, pre: Tx::Ctx, post: Tx::Ctx, out: Result<Vec<Tx::Item>, Tx::Err>) -> bool {
        all_run(self.children(), pre, post, out)
    }

    fn run(&self, ctx: &mut Tx::Ctx) -> (out: Result<Vec<Tx::Item>, Tx::Err>) {
        run_all(&self.vec, ctx)
    }
}

} // verus!
