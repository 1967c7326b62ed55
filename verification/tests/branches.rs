use transaction::prelude::{err, ok, with_ctx, Transaction, TransactionExt};
use transaction::{Branch, Branch3, Branch3Builder, Branch4, Branch4Builder, BranchBuilder, TxErr, TxOk};

type Good = TxOk<u32, u32, &'static str>;
type Bad = TxErr<u32, u32, &'static str>;

fn good(n: u32) -> Good {
    ok(n)
}

fn bad(e: &'static str) -> Bad {
    err(e)
}

#[test]
fn branch_runs_the_arm_it_holds() {
    let pick = |n: u32| -> Branch<Good, Bad> {
        if n % 2 == 0 {
            good(n).branch().first()
        } else {
            bad("odd").branch().second()
        }
    };
    let mut ctx = 0;
    assert_eq!(pick(4).run(&mut ctx), Ok(4));
    assert_eq!(pick(5).run(&mut ctx), Err("odd"));
    assert_eq!(ctx, 0);
}

#[test]
fn branch_builder_puts_the_transaction_in_the_chosen_arm() {
    assert!(matches!(BranchBuilder::new(1u8).first::<u16>(), Branch::B1(1)));
    assert!(matches!(BranchBuilder::new(1u8).second::<u16>(), Branch::B2(1)));
}

#[test]
fn branch3_runs_the_arm_it_holds() {
    let bump = || with_ctx(|c: &mut u32| {
        *c += 1;
        Ok::<u32, &'static str>(*c)
    });
    let mut ctx = 0;
    let first: Branch3<Good, Bad, _> = {
        let tx = good(1).branch3().first();
        if false {
            bump().branch3().third()
        } else {
            tx
        }
    };
    assert_eq!(first.run(&mut ctx), Ok(1));
    let second: Branch3<Good, Bad, Good> = bad("no").branch3().second();
    assert_eq!(second.run(&mut ctx), Err("no"));
    assert_eq!(ctx, 0);
    let third: Branch3<Good, Bad, _> = bump().branch3().third();
    assert_eq!(third.run(&mut ctx), Ok(1));
    assert_eq!(ctx, 1);
}

#[test]
fn branch3_builder_puts_the_transaction_in_the_chosen_arm() {
    assert!(matches!(Branch3Builder::new(1u8).first::<u16, u32>(), Branch3::B1(1)));
    assert!(matches!(Branch3Builder::new(1u8).second::<u16, u32>(), Branch3::B2(1)));
    assert!(matches!(Branch3Builder::new(1u8).third::<u16, u32>(), Branch3::B3(1)));
}

#[test]
fn branch4_runs_the_arm_it_holds() {
    let mut ctx = 7;
    let a: Branch4<Good, Bad, Good, Bad> = good(1).branch4().first();
    let b: Branch4<Good, Bad, Good, Bad> = bad("b").branch4().second();
    let c: Branch4<Good, Bad, Good, Bad> = good(3).branch4().third();
    let d: Branch4<Good, Bad, Good, Bad> = bad("d").branch4().fourth();
    assert_eq!(a.run(&mut ctx), Ok(1));
    assert_eq!(b.run(&mut ctx), Err("b"));
    assert_eq!(c.run(&mut ctx), Ok(3));
    assert_eq!(d.run(&mut ctx), Err("d"));
    assert_eq!(ctx, 7);
}

#[test]
fn branch4_builder_puts_the_transaction_in_the_chosen_arm() {
    assert!(matches!(Branch4Builder::new(1u8).first::<u16, u32, u64>(), Branch4::B1(1)));
    assert!(matches!(Branch4Builder::new(1u8).second::<u16, u32, u64>(), Branch4::B2(1)));
    assert!(matches!(Branch4Builder::new(1u8).third::<u16, u32, u64>(), Branch4::B3(1)));
    assert!(matches!(Branch4Builder::new(1u8).fourth::<u16, u32, u64>(), Branch4::B4(1)));
}
