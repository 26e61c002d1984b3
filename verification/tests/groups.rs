use lens_payment::{
    create_payment_group, create_payment_group_with_creator, creator, modify_payment_group,
    CreatePaymentGroup, CustomError, GlobalDataAccount, Holder, Identity, ModifyPaymentGroup,
    Party, PaymentGroupAccount, Transfer,
};

fn named(tag: u8) -> Identity {
    Identity { bytes: [tag; 32] }
}

fn blank_group() -> PaymentGroupAccount {
    PaymentGroupAccount {
        id: 0,
        modify_authority: named(0),
        withdraw_authority: named(0),
        lamports_per_sec: 0,
        bypass: false,
    }
}

fn creating(signer: Identity, fees_held: u64) -> CreatePaymentGroup {
    CreatePaymentGroup {
        signer,
        payment_group_account: blank_group(),
        global_data_account: GlobalDataAccount { fee_perc: 1, init_fee: 100_000_000 },
        global_holder_account: Holder { lamports: fees_held },
    }
}

#[test]
fn create_group_for_the_creation_price() {
    let mut ctx = creating(named(4), 1000);
    let moves = create_payment_group(&mut ctx, 7, named(3), 100, false).unwrap();
    assert_eq!(
        ctx.payment_group_account,
        PaymentGroupAccount {
            id: 7,
            modify_authority: named(4),
            withdraw_authority: named(3),
            lamports_per_sec: 100,
            bypass: false,
        }
    );
    assert_eq!(ctx.global_holder_account.lamports, 100_001_000);
    assert_eq!(
        moves,
        vec![Transfer { from: Party::Signer, to: Party::GlobalHolder, lamports: 100_000_000 }]
    );
}

#[test]
fn create_exempt_group_by_the_operator_is_free() {
    let operator = creator().unwrap();
    let mut ctx = creating(operator, 1000);
    let moves = create_payment_group(&mut ctx, 9, named(3), 55, true).unwrap();
    assert!(moves.is_empty());
    assert_eq!(ctx.global_holder_account.lamports, 1000);
    assert_eq!(
        ctx.payment_group_account,
        PaymentGroupAccount {
            id: 9,
            modify_authority: operator,
            withdraw_authority: named(3),
            lamports_per_sec: 55,
            bypass: true,
        }
    );
}

#[test]
fn create_exempt_group_by_anyone_else_is_refused() {
    let mut ctx = creating(named(4), 1000);
    let before = ctx;
    assert_eq!(
        create_payment_group(&mut ctx, 9, named(3), 55, true),
        Err(CustomError::InvalidCreator)
    );
    assert_eq!(ctx, before);
}

#[test]
fn create_exempt_group_under_a_given_operator() {
    let mut ctx = creating(named(4), 1000);
    assert!(create_payment_group_with_creator(&mut ctx, &Some(named(4)), 9, named(3), 55, true)
        .is_ok());
    let mut other = creating(named(4), 1000);
    assert_eq!(
        create_payment_group_with_creator(&mut other, &Some(named(5)), 9, named(3), 55, true),
        Err(CustomError::InvalidCreator)
    );
    assert_eq!(
        create_payment_group_with_creator(&mut other, &None, 9, named(3), 55, true),
        Err(CustomError::InvalidCreator)
    );
    assert!(create_payment_group_with_creator(&mut other, &None, 9, named(3), 55, false).is_ok());
}

#[test]
fn create_group_refuses_to_overfill_the_fee_holder() {
    let mut ctx = creating(named(4), u64::MAX - 99_999_999);
    let before = ctx;
    assert_eq!(
        create_payment_group(&mut ctx, 7, named(3), 100, false),
        Err(CustomError::OverflowError)
    );
    assert_eq!(ctx, before);
    ctx.global_holder_account.lamports = u64::MAX - 100_000_000;
    assert!(create_payment_group(&mut ctx, 7, named(3), 100, false).is_ok());
    assert_eq!(ctx.global_holder_account.lamports, u64::MAX);
}

#[test]
fn create_group_charges_the_configured_price() {
    let mut ctx = creating(named(4), 0);
    ctx.global_data_account.init_fee = 12;
    let moves = create_payment_group(&mut ctx, 7, named(3), 100, false).unwrap();
    assert_eq!(moves[0].lamports, 12);
    assert_eq!(ctx.global_holder_account.lamports, 12);
}

fn modifying(signer: Identity) -> ModifyPaymentGroup {
    ModifyPaymentGroup {
        signer,
        payment_group_account: PaymentGroupAccount {
            id: 7,
            modify_authority: named(2),
            withdraw_authority: named(3),
            lamports_per_sec: 100,
            bypass: true,
        },
    }
}

#[test]
fn modify_group_rewrites_rate_and_withdraw_authority() {
    let mut ctx = modifying(named(2));
    assert_eq!(modify_payment_group(&mut ctx, named(6), 250), Ok(()));
    assert_eq!(
        ctx.payment_group_account,
        PaymentGroupAccount {
            id: 7,
            modify_authority: named(2),
            withdraw_authority: named(6),
            lamports_per_sec: 250,
            bypass: true,
        }
    );
}

#[test]
fn modify_group_by_anyone_else_is_refused() {
    let mut ctx = modifying(named(3));
    let before = ctx;
    assert_eq!(
        modify_payment_group(&mut ctx, named(6), 250),
        Err(CustomError::InvalidModifyAuthority)
    );
    assert_eq!(ctx, before);
}
