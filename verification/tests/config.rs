use anchor_lang::prelude::Pubkey;
use lens_payment::{
    creator, initialize, is_creator, modify_global_data, modify_global_data_with_creator,
    withdraw_program_funds, withdraw_program_funds_with_creator, CustomError, GlobalDataAccount,
    Holder, Identity, Initialize, ModifyGlobalData, Party, Transfer, WithdrawProgramFunds, CREATOR,
};

const OPERATOR: [u8; 32] = [
    187, 179, 132, 46, 35, 85, 198, 148, 20, 16, 202, 100, 169, 211, 117, 29, 194, 35, 115, 243,
    225, 230, 104, 146, 26, 137, 201, 222, 152, 33, 87, 34,
];

fn someone(tag: u8) -> Identity {
    Identity { bytes: [tag; 32] }
}

#[test]
fn creator_decodes_to_the_operator_key() {
    assert_eq!(creator(), Some(Identity { bytes: OPERATOR }));
}

#[test]
fn creator_agrees_with_the_key_type() {
    let key: Pubkey = CREATOR.parse().unwrap();
    assert_eq!(creator().unwrap().bytes, key.to_bytes());
    assert_eq!(Pubkey::new_from_array(OPERATOR).to_string(), CREATOR);
}

#[test]
fn is_creator_compares_whole_keys() {
    let operator = Some(Identity { bytes: OPERATOR });
    assert!(is_creator(&operator, &Identity { bytes: OPERATOR }));
    let mut near = OPERATOR;
    near[0] ^= 1;
    assert!(!is_creator(&operator, &Identity { bytes: near }));
    assert!(!is_creator(&None, &Identity { bytes: OPERATOR }));
}

#[test]
fn initialize_sets_the_defaults() {
    let mut ctx = Initialize { global_data_account: GlobalDataAccount { fee_perc: 0, init_fee: 0 } };
    assert_eq!(initialize(&mut ctx), Ok(()));
    assert_eq!(ctx.global_data_account, GlobalDataAccount { fee_perc: 1, init_fee: 100_000_000 });
}

#[test]
fn modify_global_data_by_the_operator() {
    let mut ctx = ModifyGlobalData {
        signer: Identity { bytes: OPERATOR },
        global_data_account: GlobalDataAccount { fee_perc: 1, init_fee: 100_000_000 },
    };
    assert_eq!(modify_global_data(&mut ctx, 5, 77), Ok(()));
    assert_eq!(ctx.global_data_account, GlobalDataAccount { fee_perc: 5, init_fee: 77 });
    assert_eq!(ctx.signer, Identity { bytes: OPERATOR });
}

#[test]
fn modify_global_data_by_anyone_else_is_refused() {
    let mut ctx = ModifyGlobalData {
        signer: someone(4),
        global_data_account: GlobalDataAccount { fee_perc: 1, init_fee: 100_000_000 },
    };
    let before = ctx;
    assert_eq!(modify_global_data(&mut ctx, 5, 77), Err(CustomError::Unauthorized));
    assert_eq!(ctx, before);
}

#[test]
fn modify_global_data_under_a_given_operator() {
    let mut ctx = ModifyGlobalData {
        signer: someone(4),
        global_data_account: GlobalDataAccount { fee_perc: 1, init_fee: 100_000_000 },
    };
    assert_eq!(
        modify_global_data_with_creator(&mut ctx, &None, 5, 77),
        Err(CustomError::Unauthorized)
    );
    assert_eq!(
        modify_global_data_with_creator(&mut ctx, &Some(someone(5)), 5, 77),
        Err(CustomError::Unauthorized)
    );
    assert_eq!(modify_global_data_with_creator(&mut ctx, &Some(someone(4)), 5, 77), Ok(()));
    assert_eq!(ctx.global_data_account, GlobalDataAccount { fee_perc: 5, init_fee: 77 });
}

#[test]
fn sweep_leaves_the_reserve() {
    let mut ctx = WithdrawProgramFunds {
        signer: Identity { bytes: OPERATOR },
        global_holder_account: Holder { lamports: 5_000_000 },
    };
    let moves = withdraw_program_funds(&mut ctx, 946_560).unwrap();
    assert_eq!(ctx.global_holder_account.lamports, 946_560);
    assert_eq!(
        moves,
        vec![Transfer { from: Party::GlobalHolder, to: Party::Signer, lamports: 4_053_440 }]
    );
}

#[test]
fn sweep_by_anyone_else_is_refused() {
    let mut ctx = WithdrawProgramFunds {
        signer: someone(4),
        global_holder_account: Holder { lamports: 5_000_000 },
    };
    let before = ctx;
    assert_eq!(withdraw_program_funds(&mut ctx, 946_560), Err(CustomError::InvalidCreator));
    assert_eq!(ctx, before);
}

#[test]
fn sweep_of_a_holder_below_its_reserve_is_refused() {
    let mut ctx = WithdrawProgramFunds {
        signer: someone(4),
        global_holder_account: Holder { lamports: 946_559 },
    };
    let before = ctx;
    assert_eq!(
        withdraw_program_funds_with_creator(&mut ctx, &Some(someone(4)), 946_560),
        Err(CustomError::OverflowError)
    );
    assert_eq!(ctx, before);
    ctx.global_holder_account.lamports = 946_560;
    let moves = withdraw_program_funds_with_creator(&mut ctx, &Some(someone(4)), 946_560).unwrap();
    assert_eq!(moves[0].lamports, 0);
}

#[test]
fn error_messages() {
    assert_eq!(CustomError::InvalidCreator.message(), "Invalid creator");
    assert_eq!(CustomError::InvalidModifyAuthority.message(), "Invalid modify authority");
    assert_eq!(CustomError::InvalidPaymentAuthority.message(), "Invalid payment authority");
    assert_eq!(CustomError::CannotCancelPast.message(), "Cannot cancel past");
    assert_eq!(CustomError::OverflowError.message(), "Overflow error");
    assert_eq!(CustomError::InvalidWithdrawAuthority.message(), "Invalid withdraw authority");
    assert_eq!(CustomError::Unauthorized.message(), "Unauthorized");
    assert_eq!(CustomError::InvalidLevel.message(), "Invalid level");
}
