//! A leaf for database transactions: the context lends out the connection on
//! which a runner has opened the transaction.

use crate::Transaction;
use std::marker::PhantomData;
use vstd::prelude::*;

verus! {

/// The context of a transaction on a database connection of type `Cn`. A runner
/// makes one, around the connection on which it has begun the transaction, for
/// each attempt.
pub struct DieselContext<'a, Cn: 'a> {
    conn: &'a Cn,
    _phantom: PhantomData<()>,
}

impl<'a, Cn> DieselContext<'a, Cn> {
    /// The connection that the context lends out.
    pub closed spec fn connection(&self) -> &'a Cn {
        self.conn
    }

    /// The context around `conn`. For runners: whoever makes a context is taken
    /// to have begun a transaction on the connection.
    pub fn new(conn: &'a Cn) -> (ctx: Self)
        ensures
            ctx.connection() == conn,
    {
        DieselContext { conn: conn, _phantom: PhantomData }
    }

    pub fn conn(&self) -> (conn: &'a Cn)
        ensures
            conn == self.connection(),
    {
        &self.conn
    }
}

/// Makes a leaf that hands the connection of the context to `f` and returns
/// what `f` returned.
pub fn with_conn<'a, Conn, F, T, E>(f: F) -> (tx: WithConn<'a, Conn, F>) where
    F: Fn(&'a Conn) -> Result<T, E>,

    ensures
        tx.func() == f,
{
    WithConn { f: f, _phantom: PhantomData }
}

/// The result of [`with_conn`].
#[derive(Debug)]
pub struct WithConn<'a, Conn: 'a, F> {
    f: F,
    _phantom: PhantomData<&'a Conn>,
}

impl<'a, Conn, F> WithConn<'a, Conn, F> {
    /// The function that each run calls on the connection.
    pub closed spec fn func(&self) -> F {
        self.f
    }
}

impl<'a, Conn, T, E, F> Transaction for WithConn<'a, Conn, F> where F: Fn(&'a Conn) -> Result<T, E> {
    type Ctx = DieselContext<'a, Conn>;

    type Item = T;

    type Err = E;

    open spec fn can_run(&self, ctx: DieselContext<'a, Conn>) -> bool {
        call_requires(self.func(), (ctx.connection(),))
    }

    open spec fn runs(
        &self,
        pre: DieselContext<'a, Conn>,
        post: DieselContext<'a, Conn>,
        out: Result<T, E>,
    ) -> bool {
        &&& post == pre
        &&& call_ensures(self.func(), (pre.connection(),), out)
    }

    fn run(&self, ctx: &mut DieselContext<'a, Conn>) -> (out: Result<T, E>) {
        (self.f)(ctx.conn())
    }
}

} // verus!
