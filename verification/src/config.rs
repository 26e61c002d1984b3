//! The platform's configuration and its fee holder.
use crate::context::{Initialize, ModifyGlobalData, WithdrawProgramFunds};
use crate::error::CustomError;
use crate::identity::{creator, creator_key, is_creator, Identity};
use crate::records::{GlobalDataAccount, Holder, Party, Transfer};
use anchor_lang::solana_program::native_token::LAMPORTS_PER_SOL;
use vstd::prelude::*;

verus! {

/// Reads the constant `LAMPORTS_PER_SOL` of `solana_program::native_token`,
/// which that crate defines as 1 000 000 000.
#[verifier::external_body]
fn lamports_per_sol() -> (lamports: u64)
    ensures
        lamports == 1_000_000_000,
{
    LAMPORTS_PER_SOL
}

/// Gives a fresh configuration its defaults: a fee of 1 percent and a
/// group-creation price of a tenth of a SOL.
pub fn initialize(ctx: &mut Initialize) -> (res: Result<(), CustomError>)
    ensures
        res is Ok,
        final(ctx).global_data_account == (GlobalDataAccount {
            fee_perc: 1,
            init_fee: 100_000_000,
        }),
{
    ctx.global_data_account.fee_perc = 1;
    ctx.global_data_account.init_fee = lamports_per_sol() / 10;
    Ok(())
}

/// Rewrites both values of the configuration at once, where the signer is
/// the platform operator `creator`; refuses with `Unauthorized` and changes
/// nothing where it is not.
pub fn modify_global_data_with_creator(
    ctx: &mut ModifyGlobalData,
    creator: &Option<Identity>,
    fee_perc: u64,
    init_fee: u64,
) -> (res: Result<(), CustomError>)
    ensures
        *creator == Some(old(ctx).signer) ==> res is Ok && *final(ctx) == (ModifyGlobalData {
            global_data_account: GlobalDataAccount { fee_perc, init_fee },
            ..*old(ctx)
        }),
        *creator != Some(old(ctx).signer) ==> res == Err::<(), CustomError>(
            CustomError::Unauthorized,
        ) && *final(ctx) == *old(ctx),
{
    if !is_creator(creator, &ctx.signer) {
        return Err(CustomError::Unauthorized);
    }
    ctx.global_data_account.fee_perc = fee_perc;
    ctx.global_data_account.init_fee = init_fee;
    Ok(())
}

/// Rewrites both values of the configuration at once, where the signer is
/// the platform operator; refuses with `Unauthorized` and changes nothing
/// where it is not.
pub fn modify_global_data(ctx: &mut ModifyGlobalData, fee_perc: u64, init_fee: u64) -> (res: Result<
    (),
    CustomError,
>)
    ensures
        creator_key() == Some(old(ctx).signer) ==> res is Ok && *final(ctx) == (ModifyGlobalData {
            global_data_account: GlobalDataAccount { fee_perc, init_fee },
            ..*old(ctx)
        }),
        creator_key() != Some(old(ctx).signer) ==> res == Err::<(), CustomError>(
            CustomError::Unauthorized,
        ) && *final(ctx) == *old(ctx),
{
    let creator: Option<Identity> = creator();
    modify_global_data_with_creator(ctx, &creator, fee_perc, init_fee)
}

/// Why a sweep of the fee holder is refused, if it is: the signer is not the
/// platform operator `creator`, or the holder has less than its reserve.
pub open spec fn withdraw_program_funds_refusal(
    pre: WithdrawProgramFunds,
    creator: Option<Identity>,
    min_rent: u64,
) -> Option<CustomError> {
    if creator != Some(pre.signer) {
        Some(CustomError::InvalidCreator)
    } else if pre.global_holder_account.lamports < min_rent {
        Some(CustomError::OverflowError)
    } else {
        None
    }
}

/// The records after an accepted sweep: the fee holder is left with its
/// reserve, and nothing else has changed.
pub open spec fn withdraw_program_funds_next(pre: WithdrawProgramFunds, min_rent: u64) -> WithdrawProgramFunds {
    WithdrawProgramFunds { global_holder_account: Holder { lamports: min_rent }, ..pre }
}

/// The transfer an accepted sweep calls for: all that the fee holder has
/// beyond its reserve, to the signer.
pub open spec fn withdraw_program_funds_transfers(pre: WithdrawProgramFunds, min_rent: u64) -> Seq<
    Transfer,
> {
    seq![
        Transfer {
            from: Party::GlobalHolder,
            to: Party::Signer,
            lamports: (pre.global_holder_account.lamports - min_rent) as u64,
        },
    ]
}

/// Sweeps the platform's fee holder down to its reserve `min_rent` and hands
/// the surplus to the signer, where the signer is the platform operator
/// `creator`. Nothing else is touched.
pub fn withdraw_program_funds_with_creator(
    ctx: &mut WithdrawProgramFunds,
    creator: &Option<Identity>,
    min_rent: u64,
) -> (res: Result<Vec<Transfer>, CustomError>)
    ensures
        match withdraw_program_funds_refusal(*old(ctx), *creator, min_rent) {
            Some(error) => res == Err::<Vec<Transfer>, CustomError>(error) && *final(ctx) == *old(
                ctx,
            ),
            None => {
                &&& res matches Ok(moves)
                &&& moves@ == withdraw_program_funds_transfers(*old(ctx), min_rent)
                &&& *final(ctx) == withdraw_program_funds_next(*old(ctx), min_rent)
            },
        },
{
    if !is_creator(creator, &ctx.signer) {
        return Err(CustomError::InvalidCreator);
    }
    let transfer: u64 = match ctx.global_holder_account.lamports.checked_sub(min_rent) {
        Some(transfer) => transfer,
        None => { return Err(CustomError::OverflowError); },
    };
    ctx.global_holder_account.lamports = min_rent;
    let mut moves: Vec<Transfer> = Vec::new();
    moves.push(Transfer { from: Party::GlobalHolder, to: Party::Signer, lamports: transfer });
    Ok(moves)
}

/// Sweeps the platform's fee holder down to its reserve `min_rent` and hands
/// the surplus to the signer, where the signer is the platform operator.
/// Nothing else is touched.
pub fn withdraw_program_funds(ctx: &mut WithdrawProgramFunds, min_rent: u64) -> (res: Result<
    Vec<Transfer>,
    CustomError,
>)
    ensures
        match withdraw_program_funds_refusal(*old(ctx), creator_key(), min_rent) {
            Some(error) => res == Err::<Vec<Transfer>, CustomError>(error) && *final(ctx) == *old(
                ctx,
            ),
            None => {
                &&& res matches Ok(moves)
                &&& moves@ == withdraw_program_funds_transfers(*old(ctx), min_rent)
                &&& *final(ctx) == withdraw_program_funds_next(*old(ctx), min_rent)
            },
        },
{
    let creator: Option<Identity> = creator();
    withdraw_program_funds_with_creator(ctx, &creator, min_rent)
}

} // verus!
