use transaction::prelude::{err, ok, with_ctx, Transaction, TransactionExt};
use transaction::{
    abort, and_then, map_err, or_else, recover, then, try_abort, try_recover,
};

/// A leaf that appends `tag` to the log and succeeds with the length of the log.
fn log_ok(tag: &'static str) -> impl Transaction<Ctx = Vec<&'static str>, Item = usize, Err = String> {
    with_ctx(move |log: &mut Vec<&'static str>| {
        log.push(tag);
        Ok(log.len())
    })
}

/// A leaf that appends `tag` to the log and fails with `tag`.
fn log_err(tag: &'static str) -> impl Transaction<Ctx = Vec<&'static str>, Item = usize, Err = String> {
    with_ctx(move |log: &mut Vec<&'static str>| {
        log.push(tag);
        Err(tag.to_string())
    })
}

#[test]
fn map_transforms_the_item() {
    let mut log = vec![];
    assert_eq!(transaction::map::map(log_ok("a"), |n| n + 10).run(&mut log), Ok(11));
    assert_eq!(log_ok("b").map(|n| n * 2).run(&mut log), Ok(4));
    assert_eq!(log, vec!["a", "b"]);
}

#[test]
fn map_passes_a_failure_through() {
    let mut log = vec![];
    let called = std::cell::Cell::new(false);
    let tx = log_err("a").map(|n| {
        called.set(true);
        n
    });
    assert_eq!(tx.run(&mut log), Err("a".to_string()));
    assert!(!called.get());
}

#[test]
fn map_of_err_yields_the_error() {
    let tx = err::<(), u8, &str>("e").map(|_| -> u8 { unreachable!() });
    assert_eq!(tx.run(&mut ()), Err("e"));
    assert_eq!(tx.run(&mut ()), Err("e"));
}

#[test]
fn map_err_transforms_the_error() {
    let mut log = vec![];
    assert_eq!(map_err(log_err("a"), |e| e.len()).run(&mut log), Err(1));
    assert_eq!(log_err("bcd").map_err(|e| e + "!").run(&mut log), Err("bcd!".to_string()));
}

#[test]
fn map_err_passes_a_success_through() {
    let mut log = vec![];
    let tx = log_ok("a").map_err(|_| -> u8 { unreachable!() });
    assert_eq!(tx.run(&mut log), Ok(1));
}

#[test]
fn and_then_runs_the_second_step_on_the_same_context() {
    let mut log = vec![];
    let tx = and_then(log_ok("a"), |n| {
        with_ctx(move |log: &mut Vec<&'static str>| {
            log.push("b");
            Ok::<_, String>((n, log.len()))
        })
    });
    assert_eq!(tx.run(&mut log), Ok((1, 2)));
    assert_eq!(log, vec!["a", "b"]);
}

#[test]
fn and_then_stops_at_a_failure_of_the_first_step() {
    let mut log = vec![];
    let tx = log_err("a").and_then(|_| log_ok("b"));
    assert_eq!(tx.run(&mut log), Err("a".to_string()));
    assert_eq!(log, vec!["a"]);
}

#[test]
fn and_then_returns_the_failure_of_the_second_step() {
    let mut log = vec![];
    let tx = log_ok("a").and_then(|_| log_err("b"));
    assert_eq!(tx.run(&mut log), Err("b".to_string()));
    assert_eq!(log, vec!["a", "b"]);
}

#[test]
fn and_then_takes_a_plain_result_as_the_second_step() {
    let tx = ok::<(), u8, String>(4).and_then(|n| if n > 3 { Ok(n) } else { Err("small".to_string()) });
    assert_eq!(tx.run(&mut ()), Ok(4));
}

#[test]
fn or_else_falls_back_after_a_failure() {
    let mut log = vec![];
    let tx = or_else(log_err("a"), |e| {
        with_ctx(move |log: &mut Vec<&'static str>| {
            log.push("b");
            Ok::<_, String>(e.len() + log.len())
        })
    });
    assert_eq!(tx.run(&mut log), Ok(3));
    assert_eq!(log, vec!["a", "b"]);
}

#[test]
fn or_else_keeps_a_success() {
    let mut log = vec![];
    let tx = log_ok("a").or_else(|_| log_ok("b"));
    assert_eq!(tx.run(&mut log), Ok(1));
    assert_eq!(log, vec!["a"]);
}

#[test]
fn or_else_returns_the_failure_of_the_fallback() {
    let mut log = vec![];
    let tx = log_err("a").or_else(|_| log_err("b"));
    assert_eq!(tx.run(&mut log), Err("b".to_string()));
    assert_eq!(log, vec!["a", "b"]);
}

#[test]
fn then_goes_on_after_a_success_and_after_a_failure() {
    let mut log = vec![];
    let after_ok = then(log_ok("a"), |r: Result<usize, String>| {
        with_ctx(move |log: &mut Vec<&'static str>| {
            log.push("end");
            Ok::<_, String>(r.is_ok())
        })
    });
    assert_eq!(after_ok.run(&mut log), Ok(true));
    let after_err = log_err("b").then(|r: Result<usize, String>| {
        with_ctx(move |log: &mut Vec<&'static str>| {
            log.push("end");
            Ok::<_, String>(r.is_ok())
        })
    });
    assert_eq!(after_err.run(&mut log), Ok(false));
    assert_eq!(log, vec!["a", "end", "b", "end"]);
}

#[test]
fn abort_turns_a_success_into_a_failure() {
    let mut log = vec![];
    let tx = abort::<_, _, (), _>(log_ok("a"), |n| format!("got {}", n));
    assert_eq!(tx.run(&mut log), Err("got 1".to_string()));
    let tx = log_err("b").abort::<(), _>(|n| format!("got {}", n));
    assert_eq!(tx.run(&mut log), Err("b".to_string()));
}

#[test]
fn try_abort_lets_the_function_decide() {
    let mut log = vec![];
    let keep = try_abort(log_ok("a"), |n| Ok::<_, String>(n + 1));
    assert_eq!(keep.run(&mut log), Ok(2));
    let stop = log_ok("b").try_abort(|n| Err::<u8, _>(format!("stop at {}", n)));
    assert_eq!(stop.run(&mut log), Err("stop at 2".to_string()));
    let failed = log_err("c").try_abort(|n| Ok::<_, String>(n));
    assert_eq!(failed.run(&mut log), Err("c".to_string()));
}

#[test]
fn recover_turns_a_failure_into_a_success() {
    let mut log = vec![];
    let tx = recover::<_, _, (), _>(log_err("abc"), |e| e.len());
    assert_eq!(tx.run(&mut log), Ok(3));
    let tx = log_ok("d").recover::<(), _>(|_| 0);
    assert_eq!(tx.run(&mut log), Ok(2));
}

#[test]
fn recover_of_ok_yields_the_value() {
    let tx = ok::<(), u8, &str>(9).recover::<(), _>(|_| -> u8 { unreachable!() });
    assert_eq!(tx.run(&mut ()), Ok(9));
    assert_eq!(tx.run(&mut ()), Ok(9));
}

#[test]
fn try_recover_lets_the_function_decide() {
    let mut log = vec![];
    let saved = try_recover(log_err("abc"), |e| Ok::<_, u8>(e.len()));
    assert_eq!(saved.run(&mut log), Ok(3));
    let changed = log_err("de").try_recover(|e| Err::<usize, _>(e.len() as u8));
    assert_eq!(changed.run(&mut log), Err(2));
    let fine = log_ok("f").try_recover(|_| Err::<usize, _>(0u8));
    assert_eq!(fine.run(&mut log), Ok(3));
}
