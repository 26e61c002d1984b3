use lens_payment::{
    cancel, pay, Cancel, CustomError, GlobalDataAccount, Holder, Identity, Party, Pay,
    PaymentAccount, PaymentGroupAccount, Transfer,
};

fn who(tag: u8) -> Identity {
    Identity { bytes: [tag; 32] }
}

fn policy(lamports_per_sec: u64) -> PaymentGroupAccount {
    PaymentGroupAccount {
        id: 7,
        modify_authority: who(2),
        withdraw_authority: who(3),
        lamports_per_sec,
        bypass: false,
    }
}

fn paid_up(until: u64, level: u8, held: u64, lamports_per_sec: u64) -> Cancel {
    Cancel {
        signer: who(1),
        payment_account: PaymentAccount { id: 42, group_id: 7, authority: who(1), until, level },
        payment_holder_account: Holder { lamports: held },
        payment_group_account: policy(lamports_per_sec),
    }
}

#[test]
fn cancel_shrinks_until_and_pays_back() {
    let mut ctx = paid_up(1050, 1, 5000 + 890_880, 100);
    let moves = cancel(&mut ctx, 20, 1010).unwrap();
    assert_eq!(ctx.payment_account.until, 1030);
    assert_eq!(ctx.payment_holder_account.lamports, 3000 + 890_880);
    assert_eq!(
        moves,
        vec![Transfer { from: Party::PaymentHolder, to: Party::Signer, lamports: 2000 }]
    );
}

#[test]
fn cancel_pays_back_at_the_account_tier() {
    let mut ctx = paid_up(2000, 3, 1_000_000, 100);
    let moves = cancel(&mut ctx, 10, 1000).unwrap();
    assert_eq!(moves[0].lamports, 10 * 3 * 100);
    assert_eq!(ctx.payment_holder_account.lamports, 1_000_000 - 3000);
}

#[test]
fn cancel_may_reach_exactly_the_present() {
    let mut ctx = paid_up(1050, 1, 10_000, 100);
    assert!(cancel(&mut ctx, 40, 1010).is_ok());
    assert_eq!(ctx.payment_account.until, 1010);
}

#[test]
fn cancel_refuses_time_already_elapsed() {
    let mut ctx = paid_up(1050, 1, 10_000, 100);
    let before = ctx;
    assert_eq!(cancel(&mut ctx, 41, 1010), Err(CustomError::CannotCancelPast));
    assert_eq!(ctx, before);
}

#[test]
fn cancel_refuses_more_than_was_ever_paid_for() {
    let mut ctx = paid_up(1050, 1, 10_000, 100);
    let before = ctx;
    assert_eq!(cancel(&mut ctx, 1051, 0), Err(CustomError::CannotCancelPast));
    assert_eq!(cancel(&mut ctx, u64::MAX, 1010), Err(CustomError::CannotCancelPast));
    assert_eq!(ctx, before);
}

#[test]
fn cancel_on_lapsed_account_is_refused() {
    let mut ctx = paid_up(900, 1, 10_000, 100);
    assert_eq!(cancel(&mut ctx, 1, 1000), Err(CustomError::CannotCancelPast));
}

#[test]
fn cancel_by_a_stranger_is_refused_and_changes_nothing() {
    let mut ctx = paid_up(1050, 1, 10_000, 100);
    ctx.signer = who(8);
    let before = ctx;
    assert_eq!(cancel(&mut ctx, 20, 1010), Err(CustomError::InvalidPaymentAuthority));
    assert_eq!(ctx, before);
}

#[test]
fn cancel_checks_the_owner_before_the_time() {
    let mut ctx = paid_up(1050, 1, 10_000, 100);
    ctx.signer = who(8);
    assert_eq!(cancel(&mut ctx, 5000, 1010), Err(CustomError::InvalidPaymentAuthority));
}

#[test]
fn cancel_tells_owners_apart_by_every_byte() {
    let mut ctx = paid_up(1050, 1, 10_000, 100);
    let mut near = who(1);
    near.bytes[31] = 0;
    ctx.signer = near;
    assert_eq!(cancel(&mut ctx, 20, 1010), Err(CustomError::InvalidPaymentAuthority));
}

#[test]
fn cancel_refuses_a_payback_beyond_u64() {
    let mut ctx = paid_up(u64::MAX, 2, 10_000, 1);
    let before = ctx;
    assert_eq!(cancel(&mut ctx, u64::MAX - 10, 5), Err(CustomError::OverflowError));
    assert_eq!(ctx, before);
}

#[test]
fn cancel_refuses_a_payback_the_holder_cannot_meet() {
    let mut ctx = paid_up(1050, 1, 1999, 100);
    let before = ctx;
    assert_eq!(cancel(&mut ctx, 20, 1010), Err(CustomError::OverflowError));
    assert_eq!(ctx, before);
    ctx.payment_holder_account.lamports = 2000;
    assert!(cancel(&mut ctx, 20, 1010).is_ok());
    assert_eq!(ctx.payment_holder_account.lamports, 0);
}

#[test]
fn cancel_of_nothing_changes_nothing() {
    let mut ctx = paid_up(1050, 1, 10_000, 100);
    let before = ctx;
    let moves = cancel(&mut ctx, 0, 1010).unwrap();
    assert_eq!(ctx, before);
    assert_eq!(moves[0].lamports, 0);
}

fn following(paid: &Pay) -> Cancel {
    Cancel {
        signer: paid.signer,
        payment_account: paid.payment_account,
        payment_holder_account: paid.payment_holder_account,
        payment_group_account: paid.payment_group_account,
    }
}

fn before_pay(until: u64, held: u64) -> Pay {
    Pay {
        signer: who(1),
        payment_account: PaymentAccount {
            id: 42,
            group_id: 7,
            authority: who(5),
            until,
            level: 2,
        },
        payment_holder_account: Holder { lamports: held },
        payment_group_account: policy(100),
        global_data_account: GlobalDataAccount { fee_perc: 1, init_fee: 100_000_000 },
        global_holder_account: Holder { lamports: 0 },
    }
}

#[test]
fn cancel_right_after_pay_restores_until_and_balance() {
    for until in [1000u64, 1001, 4000] {
        let mut paying = before_pay(until, 890_880);
        pay(&mut paying, 7, 42, 2, 300, 1000).unwrap();
        assert_eq!(paying.payment_account.until, until + 300);
        let mut cancelling = following(&paying);
        cancel(&mut cancelling, 300, 1000).unwrap();
        assert_eq!(cancelling.payment_account.until, until);
        assert_eq!(cancelling.payment_holder_account.lamports, 890_880);
    }
}

#[test]
fn cancel_right_after_pay_on_lapsed_account_leaves_until_at_now() {
    let mut paying = before_pay(10, 890_880);
    pay(&mut paying, 7, 42, 2, 300, 1000).unwrap();
    let mut cancelling = following(&paying);
    cancel(&mut cancelling, 300, 1000).unwrap();
    assert_eq!(cancelling.payment_account.until, 1000);
    assert_eq!(cancelling.payment_holder_account.lamports, 890_880);
}
