use std::cell::Cell;
use transaction::prelude::{lazy, loop_fn, repeat, retry, with_ctx, Transaction};
use transaction::Loop;

type Log = Vec<usize>;

/// A leaf that appends `i` to the log and returns `out`.
fn round<T: Clone>(i: usize, out: Result<T, String>) -> impl Transaction<Ctx = Log, Item = T, Err = String> {
    with_ctx(move |log: &mut Log| {
        log.push(i);
        out.clone()
    })
}

#[test]
fn repeat_collects_the_items_of_all_rounds() {
    let mut log = vec![];
    let tx = repeat(4, |i| round(i, Ok(i * i)));
    assert_eq!(tx.run(&mut log), Ok(vec![0, 1, 4, 9]));
    assert_eq!(log, vec![0, 1, 2, 3]);
}

#[test]
fn repeat_stops_at_the_first_failure() {
    let calls = Cell::new(0);
    let mut log = vec![];
    let tx = repeat(5, |i| {
        calls.set(calls.get() + 1);
        round(i, if i == 2 { Err(format!("round {}", i)) } else { Ok(i) })
    });
    assert_eq!(tx.run(&mut log), Err("round 2".to_string()));
    assert_eq!(log, vec![0, 1, 2]);
    assert_eq!(calls.get(), 3);
}

#[test]
fn repeat_of_no_rounds_succeeds_with_nothing() {
    let mut log = vec![];
    let tx = repeat(0, |i| round(i, Ok(i)));
    assert_eq!(tx.run(&mut log), Ok(vec![]));
    assert_eq!(log, Vec::<usize>::new());
}

#[test]
fn repeat_can_run_again() {
    let mut log = vec![];
    let tx = repeat(2, |i| round(i, Ok(i)));
    assert_eq!(tx.run(&mut log), Ok(vec![0, 1]));
    assert_eq!(tx.run(&mut log), Ok(vec![0, 1]));
    assert_eq!(log, vec![0, 1, 0, 1]);
}

#[test]
fn retry_returns_the_first_success() {
    let calls = Cell::new(0);
    let mut log = vec![];
    let tx = retry(5, |i| {
        calls.set(calls.get() + 1);
        round(i, if i == 2 { Ok(i * 10) } else { Err(format!("attempt {}", i)) })
    });
    assert_eq!(tx.run(&mut log), Ok(20));
    assert_eq!(log, vec![0, 1, 2]);
    assert_eq!(calls.get(), 3);
}

#[test]
fn retry_returns_all_errors_in_order_when_every_attempt_fails() {
    let mut log = vec![];
    let tx = retry(3, |i| round(i, Err::<u8, _>(format!("attempt {}", i))));
    assert_eq!(
        tx.run(&mut log),
        Err(vec!["attempt 0".to_string(), "attempt 1".to_string(), "attempt 2".to_string()])
    );
    assert_eq!(log, vec![0, 1, 2]);
}

#[test]
fn retry_of_no_attempts_fails_with_no_errors() {
    let mut log = vec![];
    let tx = retry(0, |i| round(i, Ok(i)));
    assert_eq!(tx.run(&mut log), Err(vec![]));
    assert_eq!(log, Vec::<usize>::new());
}

#[test]
fn retry_takes_plain_results() {
    let tx = retry(3, |i| if i < 1 { Err(i) } else { Ok(i) });
    assert_eq!(tx.run(&mut ()), Ok(1));
}

#[test]
fn loop_fn_runs_until_break_whatever_the_first_state() {
    for s0 in [0u64, 1, 3, 100] {
        let counter = Cell::new(0u32);
        let calls = Cell::new(0u32);
        let tx = loop_fn(s0, |s: u64| {
            calls.set(calls.get() + 1);
            let n = counter.get();
            if n < 3 {
                counter.set(n + 1);
            }
            lazy::<(), _, _, ()>(move || Ok(if n < 3 { Loop::Continue(s) } else { Loop::Break(n) }))
        });
        assert_eq!(tx.run(&mut ()), Ok(3));
        assert_eq!(calls.get(), 4);
    }
}

#[test]
fn loop_fn_counts_in_the_context() {
    for s0 in [0u8, 7] {
        let calls = Cell::new(0u32);
        let tx = loop_fn(s0, |s: u8| {
            calls.set(calls.get() + 1);
            with_ctx(move |counter: &mut u32| {
                if *counter < 3 {
                    *counter += 1;
                    Ok::<_, ()>(Loop::Continue(s))
                } else {
                    Ok(Loop::Break(*counter))
                }
            })
        });
        let mut counter = 0;
        assert_eq!(tx.run(&mut counter), Ok(3));
        assert_eq!(counter, 3);
        assert_eq!(calls.get(), 4);
    }
}

#[test]
fn loop_fn_feeds_the_state_back() {
    let tx = loop_fn((0u32, 1u64), |(i, product): (u32, u64)| {
        lazy::<(), _, _, ()>(move || {
            Ok(if i < 5 { Loop::Continue((i + 1, product * 2)) } else { Loop::Break(product) })
        })
    });
    assert_eq!(tx.run(&mut ()), Ok(32));
}

#[test]
fn loop_fn_breaks_in_the_first_round() {
    let calls = Cell::new(0u32);
    let tx = loop_fn(5u8, |s: u8| {
        calls.set(calls.get() + 1);
        lazy::<u8, _, Loop<u8, u8>, ()>(move || Ok(Loop::Break(s + 1)))
    });
    let mut ctx = 0;
    assert_eq!(tx.run(&mut ctx), Ok(6));
    assert_eq!(calls.get(), 1);
}

#[test]
fn loop_fn_stops_at_a_failure() {
    let mut log = vec![];
    let tx = loop_fn(0usize, |i: usize| {
        with_ctx(move |log: &mut Log| {
            log.push(i);
            if i < 2 { Ok(Loop::Continue::<usize, ()>(i + 1)) } else { Err(format!("round {}", i)) }
        })
    });
    assert_eq!(tx.run(&mut log), Err("round 2".to_string()));
    assert_eq!(log, vec![0, 1, 2]);
}
