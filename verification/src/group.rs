//! Payment groups: a tenant's rate, authorities and fee exemption.
use crate::context::{CreatePaymentGroup, ModifyPaymentGroup};
use crate::error::CustomError;
use crate::identity::{creator, creator_key, is_creator, Identity};
use crate::records::{Holder, Party, PaymentGroupAccount, Transfer};
use vstd::prelude::*;

verus! {

/// Why the creation of a group is refused, if it is: a fee exemption is asked
/// for by someone other than the platform operator `creator`; or the
/// creation price, due where no exemption is asked for, would take the fee
/// holder beyond `u64`.
pub open spec fn create_payment_group_refusal(
    pre: CreatePaymentGroup,
    creator: Option<Identity>,
    bypass: bool,
) -> Option<CustomError> {
    if bypass {
        if creator != Some(pre.signer) {
            Some(CustomError::InvalidCreator)
        } else {
            None
        }
    } else if pre.global_holder_account.lamports + pre.global_data_account.init_fee > u64::MAX {
        Some(CustomError::OverflowError)
    } else {
        None
    }
}

/// The records after a group is created: the group holds what was asked for,
/// with the signer as its modify authority, and the fee holder has gained
/// the creation price unless the group is exempt.
pub open spec fn create_payment_group_next(
    pre: CreatePaymentGroup,
    id: u64,
    withdraw_authority: Identity,
    lamports_per_sec: u64,
    bypass: bool,
) -> CreatePaymentGroup {
    CreatePaymentGroup {
        payment_group_account: PaymentGroupAccount {
            id,
            modify_authority: pre.signer,
            withdraw_authority,
            lamports_per_sec,
            bypass,
        },
        global_holder_account: Holder {
            lamports: if bypass {
                pre.global_holder_account.lamports
            } else {
                (pre.global_holder_account.lamports + pre.global_data_account.init_fee) as u64
            },
        },
        ..pre
    }
}

/// The transfers that the creation of a group calls for: the creation price
/// from the signer to the fee holder, or none for an exempt group.
pub open spec fn create_payment_group_transfers(pre: CreatePaymentGroup, bypass: bool) -> Seq<
    Transfer,
> {
    if bypass {
        seq![]
    } else {
        seq![
            Transfer {
                from: Party::Signer,
                to: Party::GlobalHolder,
                lamports: pre.global_data_account.init_fee,
            },
        ]
    }
}

/// Creates the group `id`. With `bypass` the group is exempt from the
/// platform's fee and costs nothing to create, which only the platform
/// operator `creator` may ask for; without it, anyone may create the group
/// for the configured creation price.
pub fn create_payment_group_with_creator(
    ctx: &mut CreatePaymentGroup,
    creator: &Option<Identity>,
    id: u64,
    withdraw_authority: Identity,
    lamports_per_sec: u64,
    bypass: bool,
) -> (res: Result<Vec<Transfer>, CustomError>)
    ensures
        match create_payment_group_refusal(*old(ctx), *creator, bypass) {
            Some(error) => res == Err::<Vec<Transfer>, CustomError>(error) && *final(ctx) == *old(
                ctx,
            ),
            None => {
                &&& res matches Ok(moves)
                &&& moves@ == create_payment_group_transfers(*old(ctx), bypass)
                &&& *final(ctx) == create_payment_group_next(
                    *old(ctx),
                    id,
                    withdraw_authority,
                    lamports_per_sec,
                    bypass,
                )
            },
        },
{
    let mut moves: Vec<Transfer> = Vec::new();
    if bypass {
        if !is_creator(creator, &ctx.signer) {
            return Err(CustomError::InvalidCreator);
        }
    } else {
        let init_fee: u64 = ctx.global_data_account.init_fee;
        let held: u64 = match ctx.global_holder_account.lamports.checked_add(init_fee) {
            Some(sum) => sum,
            None => { return Err(CustomError::OverflowError); },
        };
        ctx.global_holder_account.lamports = held;
        moves.push(Transfer { from: Party::Signer, to: Party::GlobalHolder, lamports: init_fee });
    }
    ctx.payment_group_account.bypass = bypass;
    ctx.payment_group_account.withdraw_authority = withdraw_authority;
    ctx.payment_group_account.id = id;
    ctx.payment_group_account.modify_authority = ctx.signer;
    ctx.payment_group_account.lamports_per_sec = lamports_per_sec;
    Ok(moves)
}

/// Creates the group `id`. With `bypass` the group is exempt from the
/// platform's fee and costs nothing to create, which only the platform
/// operator may ask for; without it, anyone may create the group for the
/// configured creation price.
pub fn create_payment_group(
    ctx: &mut CreatePaymentGroup,
    id: u64,
    withdraw_authority: Identity,
    lamports_per_sec: u64,
    bypass: bool,
) -> (res: Result<Vec<Transfer>, CustomError>)
    ensures
        match create_payment_group_refusal(*old(ctx), creator_key(), bypass) {
            Some(error) => res == Err::<Vec<Transfer>, CustomError>(error) && *final(ctx) == *old(
                ctx,
            ),
            None => {
                &&& res matches Ok(moves)
                &&& moves@ == create_payment_group_transfers(*old(ctx), bypass)
                &&& *final(ctx) == create_payment_group_next(
                    *old(ctx),
                    id,
                    withdraw_authority,
                    lamports_per_sec,
                    bypass,
                )
            },
        },
{
    let creator: Option<Identity> = creator();
    create_payment_group_with_creator(ctx, &creator, id, withdraw_authority, lamports_per_sec, bypass)
}

/// Gives the group in `ctx` a new withdraw authority and a new rate, where
/// the signer is its modify authority; refuses with
/// `InvalidModifyAuthority` and changes nothing where it is not. The new
/// rate prices every operation from now on.
pub fn modify_payment_group(
    ctx: &mut ModifyPaymentGroup,
    withdraw_authority: Identity,
    lamports_per_sec: u64,
) -> (res: Result<(), CustomError>)
    ensures
        old(ctx).signer == old(ctx).payment_group_account.modify_authority ==> res is Ok
            && *final(ctx) == (ModifyPaymentGroup {
            payment_group_account: PaymentGroupAccount {
                withdraw_authority,
                lamports_per_sec,
                ..old(ctx).payment_group_account
            },
            ..*old(ctx)
        }),
        old(ctx).signer != old(ctx).payment_group_account.modify_authority ==> res == Err::<
            (),
            CustomError,
        >(CustomError::InvalidModifyAuthority) && *final(ctx) == *old(ctx),
{
    if !ctx.signer.same(&ctx.payment_group_account.modify_authority) {
        return Err(CustomError::InvalidModifyAuthority);
    }
    ctx.payment_group_account.withdraw_authority = withdraw_authority;
    ctx.payment_group_account.lamports_per_sec = lamports_per_sec;
    Ok(())
}

} // verus!
