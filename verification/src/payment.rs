//! Buying prepaid time, cancelling time not yet used, and paying out what
//! elapsed time has earned.
use crate::billing::{
    checked_extended_until, checked_fee, checked_lamports_needed, checked_remaining,
    extended_until, fee_fits, fee_of, lamports_needed, lamports_needed_fits, remaining,
    remaining_fits,
};
use crate::context::{Cancel, Pay, Withdraw};
use crate::error::CustomError;
use crate::records::{Holder, Party, PaymentAccount, Transfer};
use vstd::prelude::*;

verus! {

/// The price of the time that a payment buys, where it fits in `u64`.
pub open spec fn pay_cost(pre: Pay, level: u8, amount: u64) -> u64 {
    lamports_needed(amount, level, pre.payment_group_account.lamports_per_sec) as u64
}

/// The platform's share of a payment: nothing where the group is exempt.
pub open spec fn pay_fee(pre: Pay, level: u8, amount: u64) -> int {
    if pre.payment_group_account.bypass {
        0
    } else {
        fee_of(pay_cost(pre, level, amount), pre.global_data_account.fee_perc)
    }
}

/// Whether every sum and product of a payment stays within `u64`: the price,
/// the fee and the fee holder's new balance where a fee is due, the escrow
/// holder's new balance, and the new paid-until time.
pub open spec fn pay_fits(pre: Pay, level: u8, amount: u64, now: u64) -> bool {
    &&& lamports_needed_fits(amount, level, pre.payment_group_account.lamports_per_sec)
    &&& !pre.payment_group_account.bypass ==> {
        &&& fee_fits(pay_cost(pre, level, amount), pre.global_data_account.fee_perc)
        &&& pre.global_holder_account.lamports + pay_fee(pre, level, amount) <= u64::MAX
    }
    &&& pre.payment_holder_account.lamports + pay_cost(pre, level, amount) <= u64::MAX
    &&& extended_until(pre.payment_account.until, now, amount) <= u64::MAX
}

/// Why a payment is refused, if it is: the tier is below 1, or a sum or
/// product of the payment leaves `u64`.
pub open spec fn pay_refusal(pre: Pay, level: u8, amount: u64, now: u64) -> Option<CustomError> {
    if level < 1 {
        Some(CustomError::InvalidLevel)
    } else if !pay_fits(pre, level, amount, now) {
        Some(CustomError::OverflowError)
    } else {
        None
    }
}

/// The records after an accepted payment: the escrow holder gains the price,
/// the fee holder gains the fee, the paid-until time moves on by `amount`
/// from the later of its old value and `now`, and the account records who
/// paid, for what and at which tier.
pub open spec fn pay_next(pre: Pay, group_id: u64, id: u64, level: u8, amount: u64, now: u64) -> Pay {
    Pay {
        payment_account: PaymentAccount {
            id,
            group_id,
            authority: pre.signer,
            until: extended_until(pre.payment_account.until, now, amount) as u64,
            level,
        },
        payment_holder_account: Holder {
            lamports: (pre.payment_holder_account.lamports + pay_cost(pre, level, amount)) as u64,
        },
        global_holder_account: Holder {
            lamports: (pre.global_holder_account.lamports + pay_fee(pre, level, amount)) as u64,
        },
        ..pre
    }
}

/// The transfers an accepted payment calls for, in order: the fee to the
/// platform's holder, unless the group is exempt, then the price to the
/// account's escrow holder.
pub open spec fn pay_transfers(pre: Pay, level: u8, amount: u64) -> Seq<Transfer> {
    let cost = Transfer {
        from: Party::Signer,
        to: Party::PaymentHolder,
        lamports: pay_cost(pre, level, amount),
    };
    if pre.payment_group_account.bypass {
        seq![cost]
    } else {
        seq![
            Transfer {
                from: Party::Signer,
                to: Party::GlobalHolder,
                lamports: pay_fee(pre, level, amount) as u64,
            },
            cost,
        ]
    }
}

/// Buys `amount` seconds at tier `level` for the account in `ctx`, at the
/// group's current rate, as of the time `now`.
///
/// A tier below 1 is refused with `InvalidLevel`; a sum or product that
/// leaves `u64` with `OverflowError`. Otherwise the payment is accepted.
pub fn pay(ctx: &mut Pay, group_id: u64, id: u64, level: u8, amount: u64, now: u64) -> (res: Result<
    Vec<Transfer>,
    CustomError,
>)
    ensures
        match pay_refusal(*old(ctx), level, amount, now) {
            Some(error) => res == Err::<Vec<Transfer>, CustomError>(error) && *final(ctx) == *old(
                ctx,
            ),
            None => {
                &&& res matches Ok(moves)
                &&& moves@ == pay_transfers(*old(ctx), level, amount)
                &&& *final(ctx) == pay_next(*old(ctx), group_id, id, level, amount, now)
            },
        },
        res is Ok ==> {
            &&& final(ctx).payment_account.until >= old(ctx).payment_account.until
            &&& final(ctx).payment_account.until >= now
            &&& final(ctx).payment_account.until == extended_until(
                old(ctx).payment_account.until,
                now,
                amount,
            )
            &&& final(ctx).payment_holder_account.lamports == old(
                ctx,
            ).payment_holder_account.lamports + amount * level * old(
                ctx,
            ).payment_group_account.lamports_per_sec
            &&& final(ctx).payment_holder_account.lamports >= old(
                ctx,
            ).payment_holder_account.lamports
        },
{
    if level < 1 {
        return Err(CustomError::InvalidLevel);
    }
    let lamports_needed: u64 = match checked_lamports_needed(
        amount,
        level,
        ctx.payment_group_account.lamports_per_sec,
    ) {
        Ok(cost) => cost,
        Err(error) => { return Err(error); },
    };
    let mut moves: Vec<Transfer> = Vec::new();
    let mut global_held: u64 = ctx.global_holder_account.lamports;
    if !ctx.payment_group_account.bypass {
        let fee: u64 = match checked_fee(lamports_needed, ctx.global_data_account.fee_perc) {
            Ok(fee) => fee,
            Err(error) => { return Err(error); },
        };
        global_held = match global_held.checked_add(fee) {
            Some(sum) => sum,
            None => { return Err(CustomError::OverflowError); },
        };
        moves.push(Transfer { from: Party::Signer, to: Party::GlobalHolder, lamports: fee });
    }
    let held: u64 = match ctx.payment_holder_account.lamports.checked_add(lamports_needed) {
        Some(sum) => sum,
        None => { return Err(CustomError::OverflowError); },
    };
    moves.push(Transfer { from: Party::Signer, to: Party::PaymentHolder, lamports: lamports_needed });
    let until: u64 = match checked_extended_until(ctx.payment_account.until, now, amount) {
        Ok(until) => until,
        Err(error) => { return Err(error); },
    };
    ctx.global_holder_account.lamports = global_held;
    ctx.payment_holder_account.lamports = held;
    ctx.payment_account.until = until;
    ctx.payment_account.authority = ctx.signer;
    ctx.payment_account.id = id;
    ctx.payment_account.group_id = group_id;
    ctx.payment_account.level = level;
    Ok(moves)
}

/// What a cancellation of `amount` seconds pays back, where it fits in `u64`:
/// their price at the account's tier and the group's current rate.
pub open spec fn cancel_payback(pre: Cancel, amount: u64) -> u64 {
    lamports_needed(
        amount,
        pre.payment_account.level,
        pre.payment_group_account.lamports_per_sec,
    ) as u64
}

/// Why a cancellation is refused, if it is: the signer is not the account's
/// owner; the time left after it would end before `now`; or the payback
/// cannot be computed in `u64` or is more than the escrow holder has.
pub open spec fn cancel_refusal(pre: Cancel, amount: u64, now: u64) -> Option<CustomError> {
    if pre.signer != pre.payment_account.authority {
        Some(CustomError::InvalidPaymentAuthority)
    } else if pre.payment_account.until - amount < now {
        Some(CustomError::CannotCancelPast)
    } else if !lamports_needed_fits(
        amount,
        pre.payment_account.level,
        pre.payment_group_account.lamports_per_sec,
    ) || pre.payment_holder_account.lamports < cancel_payback(pre, amount) {
        Some(CustomError::OverflowError)
    } else {
        None
    }
}

/// The records after an accepted cancellation: the paid-until time is
/// `amount` seconds earlier and the escrow holder has given up the payback.
pub open spec fn cancel_next(pre: Cancel, amount: u64) -> Cancel {
    Cancel {
        payment_account: PaymentAccount {
            until: (pre.payment_account.until - amount) as u64,
            ..pre.payment_account
        },
        payment_holder_account: Holder {
            lamports: (pre.payment_holder_account.lamports - cancel_payback(pre, amount)) as u64,
        },
        ..pre
    }
}

/// The transfer an accepted cancellation calls for: the payback, from the
/// escrow holder to the signer.
pub open spec fn cancel_transfers(pre: Cancel, amount: u64) -> Seq<Transfer> {
    seq![
        Transfer {
            from: Party::PaymentHolder,
            to: Party::Signer,
            lamports: cancel_payback(pre, amount),
        },
    ]
}

/// Cancels `amount` seconds of the time paid for on the account in `ctx`,
/// none of which may have elapsed at `now`, and pays their price back to
/// the signer out of the escrow holder.
///
/// Only the account's owner may cancel. Whether the time is still in the
/// future is decided over the integers, so an `amount` beyond the paid-until
/// time is refused as `CannotCancelPast` as well.
pub fn cancel(ctx: &mut Cancel, amount: u64, now: u64) -> (res: Result<Vec<Transfer>, CustomError>)
    ensures
        match cancel_refusal(*old(ctx), amount, now) {
            Some(error) => res == Err::<Vec<Transfer>, CustomError>(error) && *final(ctx) == *old(
                ctx,
            ),
            None => {
                &&& res matches Ok(moves)
                &&& moves@ == cancel_transfers(*old(ctx), amount)
                &&& *final(ctx) == cancel_next(*old(ctx), amount)
            },
        },
        old(ctx).signer != old(ctx).payment_account.authority ==> res == Err::<
            Vec<Transfer>,
            CustomError,
        >(CustomError::InvalidPaymentAuthority),
        res is Err ==> *final(ctx) == *old(ctx),
        res is Ok ==> {
            &&& final(ctx).payment_account.until == old(ctx).payment_account.until - amount
            &&& final(ctx).payment_account.until >= now
            &&& final(ctx).payment_holder_account.lamports == old(
                ctx,
            ).payment_holder_account.lamports - amount * old(ctx).payment_account.level * old(
                ctx,
            ).payment_group_account.lamports_per_sec
        },
{
    if !ctx.signer.same(&ctx.payment_account.authority) {
        return Err(CustomError::InvalidPaymentAuthority);
    }
    if amount > ctx.payment_account.until || ctx.payment_account.until - amount < now {
        return Err(CustomError::CannotCancelPast);
    }
    let payback: u64 = match checked_lamports_needed(
        amount,
        ctx.payment_account.level,
        ctx.payment_group_account.lamports_per_sec,
    ) {
        Ok(payback) => payback,
        Err(error) => { return Err(error); },
    };
    let held: u64 = match ctx.payment_holder_account.lamports.checked_sub(payback) {
        Some(rest) => rest,
        None => { return Err(CustomError::OverflowError); },
    };
    ctx.payment_account.until = ctx.payment_account.until - amount;
    ctx.payment_holder_account.lamports = held;
    let mut moves: Vec<Transfer> = Vec::new();
    moves.push(Transfer { from: Party::PaymentHolder, to: Party::Signer, lamports: payback });
    Ok(moves)
}

/// What the escrow holder must keep back at `now`, where it fits in `u64`:
/// the worth of the time still unexpired, at the account's tier and the
/// group's current rate.
pub open spec fn withdraw_remaining(pre: Withdraw, now: u64) -> u64 {
    remaining(
        pre.payment_account.until,
        now,
        pre.payment_account.level,
        pre.payment_group_account.lamports_per_sec,
    ) as u64
}

/// Why a withdrawal is refused, if it is: the signer is not the group's
/// withdraw authority; or the worth of the unexpired time cannot be computed
/// in `u64`, or the escrow holder has less than that worth and the reserve.
pub open spec fn withdraw_refusal(pre: Withdraw, now: u64, min_rent: u64) -> Option<CustomError> {
    if pre.signer != pre.payment_group_account.withdraw_authority {
        Some(CustomError::InvalidWithdrawAuthority)
    } else if !remaining_fits(
        pre.payment_account.until,
        now,
        pre.payment_account.level,
        pre.payment_group_account.lamports_per_sec,
    ) || pre.payment_holder_account.lamports < withdraw_remaining(pre, now) + min_rent {
        Some(CustomError::OverflowError)
    } else {
        None
    }
}

/// What an accepted withdrawal pays out: all that the escrow holder has
/// beyond what it must keep back and the reserve.
pub open spec fn withdraw_surplus(pre: Withdraw, now: u64, min_rent: u64) -> u64 {
    (pre.payment_holder_account.lamports - withdraw_remaining(pre, now) - min_rent) as u64
}

/// The records after an accepted withdrawal: the escrow holder is left with
/// the worth of the unexpired time and the reserve, and nothing else has
/// changed.
pub open spec fn withdraw_next(pre: Withdraw, now: u64, min_rent: u64) -> Withdraw {
    Withdraw {
        payment_holder_account: Holder {
            lamports: (withdraw_remaining(pre, now) + min_rent) as u64,
        },
        ..pre
    }
}

/// The transfer an accepted withdrawal calls for: the surplus, from the
/// escrow holder to the signer.
pub open spec fn withdraw_transfers(pre: Withdraw, now: u64, min_rent: u64) -> Seq<Transfer> {
    seq![
        Transfer {
            from: Party::PaymentHolder,
            to: Party::Signer,
            lamports: withdraw_surplus(pre, now, min_rent),
        },
    ]
}

/// Pays out to the signer, the group's withdraw authority, all that the
/// escrow holder in `ctx` has beyond the worth of the time still unexpired
/// at `now` and the reserve `min_rent`. The paid-until time stays as it is.
///
/// A holder that has less than it must keep is refused with
/// `OverflowError`, as is a worth that leaves `u64`.
pub fn withdraw(ctx: &mut Withdraw, now: u64, min_rent: u64) -> (res: Result<
    Vec<Transfer>,
    CustomError,
>)
    ensures
        match withdraw_refusal(*old(ctx), now, min_rent) {
            Some(error) => res == Err::<Vec<Transfer>, CustomError>(error) && *final(ctx) == *old(
                ctx,
            ),
            None => {
                &&& res matches Ok(moves)
                &&& moves@ == withdraw_transfers(*old(ctx), now, min_rent)
                &&& *final(ctx) == withdraw_next(*old(ctx), now, min_rent)
            },
        },
        old(ctx).signer != old(ctx).payment_group_account.withdraw_authority ==> res == Err::<
            Vec<Transfer>,
            CustomError,
        >(CustomError::InvalidWithdrawAuthority),
        res is Err ==> *final(ctx) == *old(ctx),
        res is Ok ==> {
            &&& final(ctx).payment_account == old(ctx).payment_account
            &&& final(ctx).payment_holder_account.lamports == (if old(ctx).payment_account.until
                > now {
                (old(ctx).payment_account.until - now) * old(ctx).payment_account.level * old(
                    ctx,
                ).payment_group_account.lamports_per_sec
            } else {
                0
            }) + min_rent
            &&& final(ctx).payment_holder_account.lamports >= min_rent
        },
{
    if !ctx.signer.same(&ctx.payment_group_account.withdraw_authority) {
        return Err(CustomError::InvalidWithdrawAuthority);
    }
    let remaining: u64 = match checked_remaining(
        ctx.payment_account.until,
        now,
        ctx.payment_account.level,
        ctx.payment_group_account.lamports_per_sec,
    ) {
        Ok(remaining) => remaining,
        Err(error) => { return Err(error); },
    };
    let kept: u64 = match remaining.checked_add(min_rent) {
        Some(kept) => kept,
        None => { return Err(CustomError::OverflowError); },
    };
    let transfer: u64 = match ctx.payment_holder_account.lamports.checked_sub(kept) {
        Some(transfer) => transfer,
        None => { return Err(CustomError::OverflowError); },
    };
    ctx.payment_holder_account.lamports = kept;
    let mut moves: Vec<Transfer> = Vec::new();
    moves.push(Transfer { from: Party::PaymentHolder, to: Party::Signer, lamports: transfer });
    Ok(moves)
}

} // verus!
