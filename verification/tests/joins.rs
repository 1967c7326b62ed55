use transaction::prelude::{err, join_all, ok, with_ctx, Transaction, TransactionExt};
use transaction::{join, join3, join4, join_vec, IntoTransaction};

type Log = Vec<&'static str>;

/// A leaf that appends `tag` to the log and returns `out`.
fn step<T: Clone>(tag: &'static str, out: Result<T, &'static str>) -> impl Transaction<Ctx = Log, Item = T, Err = &'static str> {
    with_ctx(move |log: &mut Log| {
        log.push(tag);
        out.clone()
    })
}

#[test]
fn join_of_two_successes_holds_both_items() {
    let mut log = vec![];
    let tx = join(step("a", Ok(1)), step("b", Ok("two")));
    assert_eq!(tx.run(&mut log), Ok((1, "two")));
    assert_eq!(log, vec!["a", "b"]);
}

#[test]
fn join_runs_the_second_child_after_a_failure_of_the_first() {
    let mut log = vec![];
    let tx = step("a", Err::<u8, _>("first")).join(step("b", Ok(2)));
    assert_eq!(tx.run(&mut log), Err("first"));
    assert_eq!(log, vec!["a", "b"]);
}

#[test]
fn join_returns_the_first_failure_when_both_fail() {
    let mut log = vec![];
    let tx = step("a", Err::<u8, _>("first")).join(step("b", Err::<u8, _>("second")));
    assert_eq!(tx.run(&mut log), Err("first"));
    assert_eq!(log, vec!["a", "b"]);
}

#[test]
fn join_returns_the_failure_of_the_second_child() {
    let mut log = vec![];
    let tx = step("a", Ok(1)).join(step("b", Err::<u8, _>("second")));
    assert_eq!(tx.run(&mut log), Err("second"));
    assert_eq!(log, vec!["a", "b"]);
}

#[test]
fn join3_holds_three_items_or_the_leftmost_error() {
    let mut log = vec![];
    let all = join3(step("a", Ok(1)), step("b", Ok('x')), step("c", Ok(3u64)));
    assert_eq!(all.run(&mut log), Ok((1, 'x', 3u64)));
    let two_fail = step("d", Ok(1)).join3(step("e", Err::<u8, _>("e")), step("f", Err::<u8, _>("f")));
    assert_eq!(two_fail.run(&mut log), Err("e"));
    let last_fails = join3(step("g", Ok(1)), step("h", Ok(2)), step("i", Err::<u8, _>("i")));
    assert_eq!(last_fails.run(&mut log), Err("i"));
    assert_eq!(log, vec!["a", "b", "c", "d", "e", "f", "g", "h", "i"]);
}

#[test]
fn join4_holds_four_items_or_the_leftmost_error() {
    let mut log = vec![];
    let all = join4(step("a", Ok(1)), step("b", Ok(2)), step("c", Ok(3)), step("d", Ok(4)));
    assert_eq!(all.run(&mut log), Ok((1, 2, 3, 4)));
    let first = step("e", Err::<u8, _>("e")).join4(step("f", Ok(2)), step("g", Err::<u8, _>("g")), step("h", Ok(4)));
    assert_eq!(first.run(&mut log), Err("e"));
    let third = join4(step("i", Ok(1)), step("j", Ok(2)), step("k", Err::<u8, _>("k")), step("l", Err::<u8, _>("l")));
    assert_eq!(third.run(&mut log), Err("k"));
    let fourth = join4(step("m", Ok(1)), step("n", Ok(2)), step("o", Ok(3)), step("p", Err::<u8, _>("p")));
    assert_eq!(fourth.run(&mut log), Err("p"));
    assert_eq!(
        log,
        vec!["a", "b", "c", "d", "e", "f", "g", "h", "i", "j", "k", "l", "m", "n", "o", "p"]
    );
}

#[test]
fn tuples_are_lifted_to_joins() {
    let mut log = vec![];
    let two = (step("a", Ok(1)), step("b", Ok(2))).into_transaction();
    assert_eq!(two.run(&mut log), Ok((1, 2)));
    let three = (step("c", Ok(1)), step("d", Err::<u8, _>("d")), step("e", Ok(3))).into_transaction();
    assert_eq!(three.run(&mut log), Err("d"));
    let four = (step("f", Ok(1)), step("g", Ok(2)), step("h", Ok(3)), step("i", Ok(4))).into_transaction();
    assert_eq!(four.run(&mut log), Ok((1, 2, 3, 4)));
    assert_eq!(log, vec!["a", "b", "c", "d", "e", "f", "g", "h", "i"]);
}

#[test]
fn a_tuple_stands_where_a_transaction_is_expected() {
    let mut log = vec![];
    let tx = ok::<Log, u8, &str>(0).and_then(|_| (step("a", Ok(1)), step("b", Ok(2))));
    assert_eq!(tx.run(&mut log), Ok((1, 2)));
    assert_eq!(log, vec!["a", "b"]);
}

#[test]
fn a_result_is_lifted_to_a_leaf() {
    let good = IntoTransaction::<()>::into_transaction(Ok::<u8, &str>(1));
    assert_eq!(good.run(&mut ()), Ok(1));
    let bad = IntoTransaction::<()>::into_transaction(Err::<u8, &str>("bad"));
    assert_eq!(bad.run(&mut ()), Err("bad"));
}

#[test]
fn join_vec_collects_the_items_in_order() {
    let mut log = vec![];
    let tx = join_vec(vec![step("a", Ok(1)), step("b", Ok(2)), step("c", Ok(3))]);
    assert_eq!(tx.run(&mut log), Ok(vec![1, 2, 3]));
    assert_eq!(log, vec!["a", "b", "c"]);
}

#[test]
fn join_vec_runs_every_child_and_returns_the_first_failure() {
    let mut log = vec![];
    let tx = join_vec(vec![step("a", Ok(1)), step("b", Err("b")), step("c", Ok(3)), step("d", Err("d"))]);
    assert_eq!(tx.run(&mut log), Err("b"));
    assert_eq!(log, vec!["a", "b", "c", "d"]);
}

#[test]
fn join_vec_of_nothing_succeeds_with_nothing() {
    let tx = join_vec(Vec::<Result<u8, &str>>::new());
    assert_eq!(Transaction::run(&tx, &mut ()), Ok(vec![]));
}

#[test]
fn join_all_joins_what_an_iterator_yields() {
    let mut log = vec![];
    let tx = join_all(vec![step("a", Ok(1)), step("b", Ok(2))].into_iter());
    assert_eq!(tx.run(&mut log), Ok(vec![1, 2]));
    let tx = join_all((0..3).map(|i| if i == 1 { err::<Log, i32, &str>("one") } else { err("other") }));
    assert_eq!(tx.run(&mut log), Err("other"));
    assert_eq!(log, vec!["a", "b"]);
}

#[test]
fn join_all_of_nothing_succeeds_with_nothing() {
    let tx = join_all(Vec::<Result<u8, &str>>::new().into_iter());
    assert_eq!(Transaction::run(&tx, &mut ()), Ok(vec![]));
}

#[test]
fn join_all_runs_every_child_and_returns_the_first_failure() {
    let mut log = vec![];
    let tx = join_all(vec![step("a", Err::<u8, _>("a")), step("b", Ok(2)), step("c", Err("c"))].into_iter());
    assert_eq!(tx.run(&mut log), Err("a"));
    assert_eq!(log, vec!["a", "b", "c"]);
}
