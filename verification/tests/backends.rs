use transaction::prelude::{with_ctx, Transaction, TransactionExt};
use transaction::with_conn::{with_conn, DieselContext};
use transaction::with_tx::with_tx;

#[test]
fn with_tx_reads_and_writes_transactional_variables() {
    let x = stm::TVar::new(0);
    let y = stm::TVar::new(0);
    let inc_xy = with_tx(|tx| {
        let xv = tx.read(&x)?;
        tx.write(&x, xv + 1)?;
        Ok(xv)
    })
    .and_then(|_| {
        with_tx(|tx| {
            let yv = tx.read(&y)?;
            tx.write(&y, yv + 1)?;
            Ok(yv)
        })
    })
    .and_then(|_| with_tx(|tx| Ok(tx.read(&x)? + tx.read(&y)?)));
    let sum: i32 = stm::Transaction::with(|tx| inc_xy.run(tx));
    assert_eq!(sum, 2);
    assert_eq!(x.read_atomic(), 1);
    assert_eq!(y.read_atomic(), 1);
}

#[test]
fn with_ctx_works_on_an_stm_transaction() {
    let x = stm::TVar::new(20);
    let double = with_ctx(|tx: &mut stm::Transaction| {
        let v = tx.read(&x)?;
        tx.write(&x, v * 2)?;
        Ok(v * 2)
    });
    let twice = (&double).and_then(|_| &double);
    assert_eq!(stm::Transaction::with(|tx| twice.run(tx)), 80);
    assert_eq!(x.read_atomic(), 80);
}

#[test]
fn with_conn_hands_out_the_connection_of_the_context() {
    let conn = vec![1, 2, 3];
    let tx = with_conn(|cn: &Vec<i32>| Ok::<i32, ()>(cn.iter().sum())).map(|n| n * 2);
    let mut ctx = DieselContext::new(&conn);
    assert_eq!(tx.run(&mut ctx), Ok(12));
    assert_eq!(ctx.conn(), &conn);
}

#[test]
fn with_conn_passes_a_failure_on() {
    let conn = "down".to_string();
    let tx = with_conn(|cn: &String| Err::<(), String>(cn.clone()));
    assert_eq!(tx.run(&mut DieselContext::new(&conn)), Err("down".to_string()));
}
