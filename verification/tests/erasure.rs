use transaction::mdo::{bind, ret};
use transaction::prelude::{err, ok, with_ctx, Transaction, TransactionExt};
use transaction::Erased;

type BoxTx<'a, T> = Box<dyn Erased<u32, T, &'static str> + 'a>;

fn bump<'a>(by: u32) -> BoxTx<'a, u32> {
    with_ctx(move |c: &mut u32| {
        *c += by;
        Ok(*c)
    })
    .boxed()
}

fn pick<'a>(n: u32) -> BoxTx<'a, u32> {
    match n {
        0 => ok(0).boxed(),
        1 => err("one").boxed(),
        2 => bump(2),
        3 => bump(1).and_then(|_| bump(2)).boxed(),
        _ => ok(n).map(|n| n * 2).boxed(),
    }
}

#[test]
fn boxed_runs_as_the_transaction_it_holds() {
    let mut ctx = 0;
    assert_eq!(pick(0).run(&mut ctx), Ok(0));
    assert_eq!(pick(1).run(&mut ctx), Err("one"));
    assert_eq!(pick(2).run(&mut ctx), Ok(2));
    assert_eq!(pick(3).run(&mut ctx), Ok(5));
    assert_eq!(pick(9).run(&mut ctx), Ok(18));
    assert_eq!(ctx, 5);
}

#[test]
fn a_boxed_transaction_takes_the_combinators() {
    let mut ctx = 0;
    let tx = pick(2).and_then(|n| pick(n)).map(|n| n + 100);
    assert_eq!(tx.run(&mut ctx), Ok(104));
    assert_eq!(ctx, 4);
}

#[test]
fn a_box_of_a_transaction_is_a_transaction() {
    let tx = Box::new(ok::<(), u8, ()>(1));
    assert_eq!(tx.run(&mut ()), Ok(1));
}

#[test]
fn a_reference_to_a_transaction_is_a_transaction() {
    let tx = with_ctx(|c: &mut u32| {
        *c += 1;
        Ok::<u32, ()>(*c)
    });
    let twice = (&tx).and_then(|_| &tx);
    let mut ctx = 0;
    assert_eq!(twice.run(&mut ctx), Ok(2));
    assert_eq!(tx.run(&mut ctx), Ok(3));
}

#[test]
fn bind_is_and_then_and_ret_is_ok() {
    let tx = bind(ret::<u32, u32, ()>(1), |n| {
        with_ctx(move |c: &mut u32| {
            *c += n;
            Ok(*c)
        })
    });
    let mut ctx = 10;
    assert_eq!(tx.run(&mut ctx), Ok(11));
    assert_eq!(ctx, 11);
}
