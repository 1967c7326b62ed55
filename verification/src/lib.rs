//! Transactions as values.
//!
//! A [`Transaction`] is a computation that has to run inside some transactional
//! context: a database connection, the log of a software transactional memory, or
//! any other resource that can be rolled back. The computation is built first, as
//! an ordinary value, out of leaves (`ok`, `err`, `result`, `lazy`, `with_ctx`)
//! and combinators (`map`, `and_then`, `join`, `branch`, `repeat`, `retry`,
//! `loop_fn`, ...). A runner then hands it one context and calls
//! [`Transaction::run`], as often as it needs to.
//!
//! ```ignore
//! use transaction::prelude::*;
//!
//! // The connection is not there yet: it comes with the context, at run time.
//! fn rename(id: i64, name: String) -> impl Transaction<Ctx = Conn, Item = User, Err = DbError> {
//!     with_ctx(move |cn: &mut Conn| cn.update_name(id, &name))
//!         .and_then(move |updated| {
//!             if updated {
//!                 with_ctx(move |cn: &mut Conn| cn.find(id)).branch().first()
//!             } else {
//!                 err(DbError::NotFound).branch().second()
//!             }
//!         })
//! }
//! ```
//!
//! Every node of such a tree carries a mathematical model of what one run does:
//! [`Transaction::can_run`] says from which contexts the node may be run, and
//! [`Transaction::runs`] relates the context before a run to the context after it
//! and to the outcome. The contract of `run` is stated over these two, and each
//! combinator defines them from those of its children, so that what a whole tree
//! does can be read off its shape. A failure is an outcome like any other: no
//! node panics on one, and none decides whether to commit or to roll back. That
//! is left to the runner.

use vstd::prelude::*;

pub mod abort;
pub mod and_then;
pub mod branch;
pub mod branch3;
pub mod branch4;
pub mod err;
pub mod indexed;
pub mod join;
pub mod join3;
pub mod join4;
pub mod join_all;
pub mod join_vec;
pub mod lazy;
pub mod loop_fn;
pub mod map;
pub mod map_err;
pub mod mdo;
pub mod ok;
pub mod or_else;
pub mod outcomes;
pub mod prelude;
pub mod recover;
pub mod repeat;
pub mod result;
pub mod retry;
pub mod then;
pub mod try_abort;
pub mod try_recover;
pub mod with_conn;
pub mod with_ctx;
pub mod with_tx;

pub use crate::abort::{abort, Abort};
pub use crate::and_then::{and_then, AndThen};
pub use crate::branch::{Branch, BranchBuilder};
pub use crate::branch3::{Branch3, Branch3Builder};
pub use crate::branch4::{Branch4, Branch4Builder};
pub use crate::err::{err, TxErr};
pub use crate::join::{join, Join};
pub use crate::join3::{join3, Join3};
pub use crate::join4::{join4, Join4};
pub use crate::join_all::{join_all, JoinAll};
pub use crate::join_vec::{join_vec, JoinVec};
pub use crate::lazy::{lazy, Lazy};
pub use crate::loop_fn::{loop_fn, Loop, LoopFn};
pub use crate::map::TxMap;
pub use crate::map_err::{map_err, MapErr};
pub use crate::ok::{ok, TxOk};
pub use crate::or_else::{or_else, OrElse};
pub use crate::recover::{recover, Recover};
pub use crate::repeat::{repeat, Repeat};
pub use crate::result::{result, TxResult};
pub use crate::retry::{retry, Retry};
pub use crate::then::{then, Then};
pub use crate::try_abort::{try_abort, TryAbort};
pub use crate::try_recover::{try_recover, TryRecover};
pub use crate::with_ctx::{with_ctx, WithCtx};

verus! {

/// A computation that runs inside a context of type `Ctx` and ends in an `Item`
/// or in an `Err`.
///
/// Nothing happens until [`run`](Transaction::run) is called, and a node may be
/// run any number of times: running borrows the node and leaves it as it was.
/// Runners may run a transaction again after a failure, so what a node computes
/// outside the context should give the same result each time.
#[must_use]
pub trait Transaction {
    /// The context (the transaction of the backend) that a run works on.
    type Ctx;

    /// What a successful run returns.
    type Item;

    /// What a failed run returns.
    type Err;

    /// Whether the node may be run from the context `ctx`: every function stored
    /// in the tree may be called on the values that can reach it.
    ///
    /// An implementation that does not say otherwise may be run from anywhere.
    open spec fn can_run(&self, ctx: Self::Ctx) -> bool {
        true
    }

    /// Whether one run that starts in the context `pre` may leave the context
    /// `post` and return `out`.
    ///
    /// An implementation that does not say otherwise promises nothing of a run.
    open spec fn runs(
        &self,
        pre: Self::Ctx,
        post: Self::Ctx,
        out: Result<Self::Item, Self::Err>,
    ) -> bool {
        true
    }

    /// Runs the transaction once on `ctx`. Called by a runner rather than by hand.
    fn run(&self, ctx: &mut Self::Ctx) -> (out: Result<Self::Item, Self::Err>)
        requires
            self.can_run(*old(ctx)),
        ensures
            self.runs(*old(ctx), *final(ctx), out),
    ;
}

/// Types that can be turned into a transaction on the context `Ctx`: every
/// transaction itself, a `Result` (a leaf that returns it) and tuples of two to
/// four such values (the join of their parts).
pub trait IntoTransaction<Ctx> {
    /// The transaction that a value turns into.
    type Tx: Transaction<Ctx = Ctx, Item = Self::Item, Err = Self::Err>;

    /// The error of that transaction.
    type Err;

    /// The item of that transaction.
    type Item;

    /// The transaction that `self` is lifted to.
    spec fn lifted(self) -> Self::Tx;

    /// Lifts `self` into the algebra.
    fn into_transaction(self) -> (tx: Self::Tx)
        ensures
            tx == self.lifted(),
    ;
}

impl<Tx, Ctx> IntoTransaction<Ctx> for Tx where Tx: Transaction<Ctx = Ctx> {
    type Tx = Tx;

    type Err = Tx::Err;

    type Item = Tx::Item;

    open spec fn lifted(self) -> Tx {
        self
    }

    fn into_transaction(self) -> (tx: Tx) {
        self
    }
}

/// The combinators as methods, so that a transaction can be built as a chain of
/// calls. Every transaction has them; each does what the function of the same
/// name does.
///
/// They stand beside [`Transaction`] rather than in it because they speak of
/// [`IntoTransaction`], which is itself defined over `Transaction`.
pub trait TransactionExt: Transaction + Sized {
    /// Boxes the transaction, so that transactions of different types can stand
    /// where one type is expected. The box runs as `self` does, whether it is
    /// taken as an [`Erased`] or as a [`Transaction`].
    ///
    /// This costs one indirect call per run; where two to four shapes meet,
    /// [`branch`](TransactionExt::branch) and its kin do without.
    fn boxed<'a>(self) -> (b: Box<dyn Erased<Self::Ctx, Self::Item, Self::Err> + 'a>) where
        Self: 'a,

        ensures
            forall|ctx: Self::Ctx| #[trigger] b.erased_can_run(ctx) <==> self.can_run(ctx),
            forall|pre: Self::Ctx, post: Self::Ctx, out: Result<Self::Item, Self::Err>| #[trigger]
                b.erased_runs(pre, post, out) <==> self.runs(pre, post, out),
            forall|ctx: Self::Ctx| #[trigger] b.can_run(ctx) <==> self.can_run(ctx),
            forall|pre: Self::Ctx, post: Self::Ctx, out: Result<Self::Item, Self::Err>| #[trigger]
                b.runs(pre, post, out) <==> self.runs(pre, post, out),
    {
        return Box::new(self);
    }

    /// Goes on with the outcome of `self`, success or failure: see
    /// [`then`](crate::then::then).
    fn then<F, B, Tx2>(self, f: F) -> (tx: Then<Self, F, Tx2>) where
        Tx2: IntoTransaction<Self::Ctx, Item = B, Err = Self::Err>,
        F: Fn(Result<Self::Item, Self::Err>) -> Tx2,

        ensures
            tx.first() == self,
            tx.func() == f,
    {
        then(self, f)
    }

    /// Applies `f` to the item of a success: see [`map`](crate::map::map).
    fn map<F, B>(self, f: F) -> (tx: TxMap<Self, F>) where F: Fn(Self::Item) -> B
        ensures
            tx.inner() == self,
            tx.func() == f,
    {
        crate::map::map(self, f)
    }

    /// Chains a step that depends on the item of `self`: see
    /// [`and_then`](crate::and_then::and_then).
    fn and_then<F, B>(self, f: F) -> (tx: AndThen<Self, F, B>) where
        B: IntoTransaction<Self::Ctx, Err = Self::Err>,
        F: Fn(Self::Item) -> B,

        ensures
            tx.first() == self,
            tx.func() == f,
    {
        and_then(self, f)
    }

    /// Applies `f` to the error of a failure: see
    /// [`map_err`](crate::map_err::map_err).
    fn map_err<F, B>(self, f: F) -> (tx: MapErr<Self, F>) where F: Fn(Self::Err) -> B
        ensures
            tx.inner() == self,
            tx.func() == f,
    {
        map_err(self, f)
    }

    /// Falls back after a failure of `self`: see
    /// [`or_else`](crate::or_else::or_else).
    fn or_else<F, B>(self, f: F) -> (tx: OrElse<Self, F, B>) where
        B: IntoTransaction<Self::Ctx, Item = Self::Item>,
        F: Fn(Self::Err) -> B,

        ensures
            tx.first() == self,
            tx.func() == f,
    {
        or_else(self, f)
    }

    /// Turns a success into a failure: see [`abort`](crate::abort::abort).
    fn abort<T, F>(self, f: F) -> (tx: Abort<Self, T, F>) where F: Fn(Self::Item) -> Self::Err
        ensures
            tx.inner() == self,
            tx.func() == f,
    {
        abort(self, f)
    }

    /// Lets `f` decide about a success: see
    /// [`try_abort`](crate::try_abort::try_abort).
    fn try_abort<F, B>(self, f: F) -> (tx: TryAbort<Self, F, B>) where
        F: Fn(Self::Item) -> Result<B, Self::Err>,

        ensures
            tx.inner() == self,
            tx.func() == f,
    {
        try_abort(self, f)
    }

    /// Turns a failure into a success: see [`recover`](crate::recover::recover).
    fn recover<T, F>(self, f: F) -> (tx: Recover<Self, T, F>) where F: Fn(Self::Err) -> Self::Item
        ensures
            tx.inner() == self,
            tx.func() == f,
    {
        recover(self, f)
    }

    /// Lets `f` decide about a failure: see
    /// [`try_recover`](crate::try_recover::try_recover).
    fn try_recover<F, B>(self, f: F) -> (tx: TryRecover<Self, F, B>) where
        F: Fn(Self::Err) -> Result<Self::Item, B>,

        ensures
            tx.inner() == self,
            tx.func() == f,
    {
        try_recover(self, f)
    }

    /// Joins `self` with one independent transaction: see
    /// [`join`](crate::join::join).
    fn join<B>(self, b: B) -> (tx: Join<Self, B::Tx>) where
        B: IntoTransaction<Self::Ctx, Err = Self::Err>,

        ensures
            tx.first() == self,
            tx.second() == b.lifted(),
    {
        join(self, b)
    }

    /// Joins `self` with two independent transactions: see
    /// [`join3`](crate::join3::join3).
    fn join3<B, C>(self, b: B, c: C) -> (tx: Join3<Self, B::Tx, C::Tx>) where
        B: IntoTransaction<Self::Ctx, Err = Self::Err>,
        C: IntoTransaction<Self::Ctx, Err = Self::Err>,

        ensures
            tx.first() == self,
            tx.second() == b.lifted(),
            tx.third() == c.lifted(),
    {
        join3(self, b, c)
    }

    /// Joins `self` with three independent transactions: see
    /// [`join4`](crate::join4::join4).
    fn join4<B, C, D>(self, b: B, c: C, d: D) -> (tx: Join4<Self, B::Tx, C::Tx, D::Tx>) where
        B: IntoTransaction<Self::Ctx, Err = Self::Err>,
        C: IntoTransaction<Self::Ctx, Err = Self::Err>,
        D: IntoTransaction<Self::Ctx, Err = Self::Err>,

        ensures
            tx.first() == self,
            tx.second() == b.lifted(),
            tx.third() == c.lifted(),
            tx.fourth() == d.lifted(),
    {
        join4(self, b, c, d)
    }

    /// Starts a two-way branch with `self` in one of its arms.
    fn branch(self) -> (b: BranchBuilder<Self>)
        ensures
            b.inner() == self,
    {
        BranchBuilder::new(self)
    }

    /// Starts a three-way branch with `self` in one of its arms.
    fn branch3(self) -> (b: Branch3Builder<Self>)
        ensures
            b.inner() == self,
    {
        Branch3Builder::new(self)
    }

    /// Starts a four-way branch with `self` in one of its arms.
    fn branch4(self) -> (b: Branch4Builder<Self>)
        ensures
            b.inner() == self,
    {
        Branch4Builder::new(self)
    }
}

impl<Tx: Transaction> TransactionExt for Tx {

}

/// A transaction seen through its context, item and error only: what a boxed
/// transaction is a `dyn` of. Every transaction is one, and runs as itself.
pub trait Erased<Ctx, T, E> {
    /// [`Transaction::can_run`] of the transaction behind.
    spec fn erased_can_run(&self, ctx: Ctx) -> bool;

    /// [`Transaction::runs`] of the transaction behind.
    spec fn erased_runs(&self, pre: Ctx, post: Ctx, out: Result<T, E>) -> bool;

    /// [`Transaction::run`] of the transaction behind.
    fn erased_run(&self, ctx: &mut Ctx) -> (out: Result<T, E>)
        requires
            self.erased_can_run(*old(ctx)),
        ensures
            self.erased_runs(*old(ctx), *final(ctx), out),
    ;
}

impl<Tx: Transaction> Erased<Tx::Ctx, Tx::Item, Tx::Err> for Tx {
    open spec fn erased_can_run(&self, ctx: Tx::Ctx) -> bool {
        self.can_run(ctx)
    }

    open spec fn erased_runs(
        &self,
        pre: Tx::Ctx,
        post: Tx::Ctx,
        out: Result<Tx::Item, Tx::Err>,
    ) -> bool {
        self.runs(pre, post, out)
    }

    fn erased_run(&self, ctx: &mut Tx::Ctx) -> (out: Result<Tx::Item, Tx::Err>) {
        self.run(ctx)
    }
}

impl<'a, Ctx, T, E> Transaction for dyn Erased<Ctx, T, E> + 'a {
    type Ctx = Ctx;

    type Item = T;

    type Err = E;

    open spec fn can_run(&self, ctx: Ctx) -> bool {
        self.erased_can_run(ctx)
    }

    open spec fn runs(&self, pre: Ctx, post: Ctx, out: Result<T, E>) -> bool {
        self.erased_runs(pre, post, out)
    }

    fn run(&self, ctx: &mut Ctx) -> (out: Result<T, E>) {
        self.erased_run(ctx)
    }
}

impl<T> Transaction for Box<T> where T: ?Sized + Transaction {
    type Ctx = T::Ctx;

    type Item = T::Item;

    type Err = T::Err;

    open spec fn can_run(&self, ctx: T::Ctx) -> bool {
        (**self).can_run(ctx)
    }

    open spec fn runs(&self, pre: T::Ctx, post: T::Ctx, out: Result<T::Item, T::Err>) -> bool {
        (**self).runs(pre, post, out)
    }

    fn run(&self, ctx: &mut T::Ctx) -> (out: Result<T::Item, T::Err>) {
        (**self).run(ctx)
    }
}

impl<'a, T> Transaction for &'a T where T: ?Sized + Transaction {
    type Ctx = T::Ctx;

    type Item = T::Item;

    type Err = T::Err;

    open spec fn can_run(&self, ctx: T::Ctx) -> bool {
        (**self).can_run(ctx)
    }

    open spec fn runs(&self, pre: T::Ctx, post: T::Ctx, out: Result<T::Item, T::Err>) -> bool {
        (**self).runs(pre, post, out)
    }

    fn run(&self, ctx: &mut T::Ctx) -> (out: Result<T::Item, T::Err>) {
        (**self).run(ctx)
    }
}

} // verus!
