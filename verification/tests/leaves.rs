use transaction::prelude::{err, lazy, ok, result, retry, with_ctx, Transaction, TransactionExt};

#[test]
fn ok_returns_its_value_and_leaves_the_context() {
    let tx = ok::<u32, i32, String>(7);
    let mut ctx = 3u32;
    assert_eq!(tx.run(&mut ctx), Ok(7));
    assert_eq!(ctx, 3);
    assert_eq!(tx.run(&mut ctx), Ok(7));
}

#[test]
fn err_returns_its_error_and_leaves_the_context() {
    let tx = err::<u32, i32, String>("no".to_string());
    let mut ctx = 3u32;
    assert_eq!(tx.run(&mut ctx), Err("no".to_string()));
    assert_eq!(ctx, 3);
}

#[test]
fn result_returns_what_it_holds() {
    let good = result::<(), i32, &str>(Ok(1));
    let bad = result::<(), i32, &str>(Err("bad"));
    assert_eq!(good.run(&mut ()), Ok(1));
    assert_eq!(bad.run(&mut ()), Err("bad"));
}

#[test]
fn lazy_calls_its_function_on_every_run() {
    let calls = std::cell::Cell::new(0);
    let tx = lazy::<(), _, i32, ()>(|| {
        calls.set(calls.get() + 1);
        Ok(calls.get())
    });
    assert_eq!(tx.run(&mut ()), Ok(1));
    assert_eq!(tx.run(&mut ()), Ok(2));
    assert_eq!(calls.get(), 2);
}

#[test]
fn with_ctx_hands_the_context_to_its_function() {
    let tx = with_ctx(|c: &mut Vec<u8>| -> Result<usize, ()> {
        c.push(1);
        Ok(c.len())
    });
    let mut ctx = vec![];
    assert_eq!(tx.run(&mut ctx), Ok(1));
    assert_eq!(tx.run(&mut ctx), Ok(2));
    assert_eq!(ctx, vec![1, 1]);
}

struct Counter;

impl Transaction for Counter {
    type Ctx = u64;
    type Item = u64;
    type Err = ();

    fn run(&self, ctx: &mut u64) -> Result<u64, ()> {
        *ctx += 1;
        Ok(*ctx)
    }
}

#[test]
fn a_type_of_the_caller_can_be_a_transaction() {
    let tx = Counter.map(|n| n * 10);
    let mut ctx = 0;
    assert_eq!(tx.run(&mut ctx), Ok(10));
    assert_eq!(tx.run(&mut ctx), Ok(20));
}

/// Two runs of one leaf, each on a context of its own with the same contents,
/// return the same and leave the same.
#[test]
fn a_leaf_run_twice_from_equal_contexts_does_the_same_twice() {
    let leaf = with_ctx(|c: &mut Vec<u8>| {
        c.push(c.len() as u8);
        if c.len() < 3 { Err(c.len()) } else { Ok(c.len()) }
    });
    let mut first = vec![7];
    let mut second = vec![7];
    let out1 = leaf.run(&mut first);
    let out2 = leaf.run(&mut second);
    assert_eq!(out1, Err(2));
    assert_eq!(out1, out2);
    assert_eq!(first, second);

    let again = retry(2, |_| &leaf);
    let mut first = vec![7];
    let mut second = vec![7];
    assert_eq!(again.run(&mut first), Ok(3));
    assert_eq!(again.run(&mut second), Ok(3));
    assert_eq!(first, vec![7, 1, 2]);
    assert_eq!(first, second);
}
