//! The two functions that make transactions a monad: `bind` and `ret`, under the
//! names that monadic `do` notation looks for.

use crate::and_then::AndThen;
use crate::ok::{ok, TxOk};
use crate::{Transaction, TransactionExt};
use vstd::prelude::*;

verus! {

/// `tx.and_then(f)`.
pub fn bind<Tx, F, B>(tx: Tx, f: F) -> (bound: AndThen<Tx, F, B>) where
    B: Transaction<Ctx = Tx::Ctx, Err = Tx::Err>,
    F: Fn(Tx::Item) -> B,
    Tx: Transaction + Sized,

    ensures
        bound.first() == tx,
        bound.func() == f,
{
    tx.and_then(f)
}

/// `ok(x)`.
pub fn ret<Ctx, T, E>(x: T) -> (tx: TxOk<Ctx, T, E>)
    ensures
        tx.value() == x,
{
    ok(x)
}

} // verus!
