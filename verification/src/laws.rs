//! What holds of the operations on a payment account, taken together.
use crate::billing::{covers, lemma_lamports_needed_adds, lemma_lamports_needed_sign};
use crate::config::{
    withdraw_program_funds_next, withdraw_program_funds_refusal, withdraw_program_funds_transfers,
};
use crate::context::{Cancel, CreatePaymentGroup, Pay, Withdraw, WithdrawProgramFunds};
use crate::group::{
    create_payment_group_next, create_payment_group_refusal, create_payment_group_transfers,
};
use crate::identity::Identity;
use crate::payment::{
    cancel_next, cancel_refusal, cancel_transfers, pay_next, pay_refusal, pay_transfers,
    withdraw_next, withdraw_refusal, withdraw_transfers,
};
use crate::records::{gain, lemma_gain_of_one, lemma_gain_of_two, Party};
use vstd::prelude::*;

verus! {

/// The records a cancellation works on when the payer cancels right after
/// the payment that left `paid`.
pub open spec fn cancel_following(paid: Pay) -> Cancel {
    Cancel {
        signer: paid.signer,
        payment_account: paid.payment_account,
        payment_holder_account: paid.payment_holder_account,
        payment_group_account: paid.payment_group_account,
    }
}

/// Whether the escrow holder of a payment's records covers the account at
/// `now`, at the account's tier and the group's rate.
pub open spec fn pay_covered(ctx: Pay, now: u64, min_rent: u64) -> bool {
    covers(
        ctx.payment_holder_account.lamports,
        ctx.payment_account.until,
        now,
        ctx.payment_account.level,
        ctx.payment_group_account.lamports_per_sec,
        min_rent,
    )
}

/// Whether the escrow holder of a cancellation's records covers the account
/// at `now`, at the account's tier and the group's rate.
pub open spec fn cancel_covered(ctx: Cancel, now: u64, min_rent: u64) -> bool {
    covers(
        ctx.payment_holder_account.lamports,
        ctx.payment_account.until,
        now,
        ctx.payment_account.level,
        ctx.payment_group_account.lamports_per_sec,
        min_rent,
    )
}

/// Whether the escrow holder of a withdrawal's records covers the account
/// at `now`, at the account's tier and the group's rate.
pub open spec fn withdraw_covered(ctx: Withdraw, now: u64, min_rent: u64) -> bool {
    covers(
        ctx.payment_holder_account.lamports,
        ctx.payment_account.until,
        now,
        ctx.payment_account.level,
        ctx.payment_group_account.lamports_per_sec,
        min_rent,
    )
}

/// A cancellation of `amount` seconds at the moment of an accepted payment
/// of `amount` seconds, by the same signer, is accepted and undoes the
/// payment on an account that had not lapsed: the paid-until time and the
/// escrow holder's balance are what they were before the payment.
pub proof fn lemma_cancel_undoes_pay(
    pre: Pay,
    group_id: u64,
    id: u64,
    level: u8,
    amount: u64,
    now: u64,
)
    requires
        pay_refusal(pre, level, amount, now) is None,
        pre.payment_account.until >= now,
    ensures
        ({
            let paid = cancel_following(pay_next(pre, group_id, id, level, amount, now));
            &&& cancel_refusal(paid, amount, now) is None
            &&& cancel_next(paid, amount).payment_account.until == pre.payment_account.until
            &&& cancel_next(paid, amount).payment_holder_account == pre.payment_holder_account
        }),
{
}

/// On a lapsed account the same cancellation is accepted too and gives the
/// escrow holder its old balance back, but the paid-until time it leaves is
/// the moment of the payment, not the earlier time at which the account
/// had run out.
pub proof fn lemma_cancel_after_lapsed_pay(
    pre: Pay,
    group_id: u64,
    id: u64,
    level: u8,
    amount: u64,
    now: u64,
)
    requires
        pay_refusal(pre, level, amount, now) is None,
        pre.payment_account.until < now,
    ensures
        ({
            let paid = cancel_following(pay_next(pre, group_id, id, level, amount, now));
            &&& cancel_refusal(paid, amount, now) is None
            &&& cancel_next(paid, amount).payment_account.until == now
            &&& cancel_next(paid, amount).payment_holder_account == pre.payment_holder_account
        }),
{
}

/// An accepted payment never takes from the escrow holder. Where the holder
/// covered the account before, and the payment is at the account's own tier
/// or finds no time left on it, the holder covers the account afterwards.
pub proof fn lemma_pay_keeps_cover(
    pre: Pay,
    group_id: u64,
    id: u64,
    level: u8,
    amount: u64,
    now: u64,
    min_rent: u64,
)
    requires
        pay_refusal(pre, level, amount, now) is None,
        pay_covered(pre, now, min_rent),
        level == pre.payment_account.level || pre.payment_account.until <= now,
    ensures
        pay_next(pre, group_id, id, level, amount, now).payment_holder_account.lamports
            >= pre.payment_holder_account.lamports,
        pay_covered(pay_next(pre, group_id, id, level, amount, now), now, min_rent),
{
    let rate = pre.payment_group_account.lamports_per_sec;
    let until = pre.payment_account.until;
    lemma_lamports_needed_sign(amount, level, rate);
    if until > now {
        lemma_lamports_needed_adds((until - now) as u64, amount, level, rate);
    }
}

/// Where the escrow holder covered the account before an accepted
/// cancellation, it covers the account afterwards, so it still has its
/// reserve.
pub proof fn lemma_cancel_keeps_cover(pre: Cancel, amount: u64, now: u64, min_rent: u64)
    requires
        cancel_refusal(pre, amount, now) is None,
        cancel_covered(pre, now, min_rent),
    ensures
        cancel_covered(cancel_next(pre, amount), now, min_rent),
        cancel_next(pre, amount).payment_holder_account.lamports >= min_rent,
{
    let rate = pre.payment_group_account.lamports_per_sec;
    let level = pre.payment_account.level;
    let until = pre.payment_account.until;
    lemma_lamports_needed_sign(amount, level, rate);
    lemma_lamports_needed_sign((until - amount - now) as u64, level, rate);
    lemma_lamports_needed_adds((until - amount - now) as u64, amount, level, rate);
}

/// After an accepted withdrawal the escrow holder covers the account with
/// nothing to spare, whatever it held before.
pub proof fn lemma_withdraw_leaves_cover(pre: Withdraw, now: u64, min_rent: u64)
    requires
        withdraw_refusal(pre, now, min_rent) is None,
    ensures
        withdraw_covered(withdraw_next(pre, now, min_rent), now, min_rent),
        withdraw_next(pre, now, min_rent).payment_holder_account.lamports >= min_rent,
{
    let rate = pre.payment_group_account.lamports_per_sec;
    let level = pre.payment_account.level;
    let until = pre.payment_account.until;
    if until > now {
        lemma_lamports_needed_sign((until - now) as u64, level, rate);
    }
}

/// The transfers of an accepted payment are what its records show: each
/// holder gains by them what its balance grows by.
pub proof fn lemma_pay_transfers_match(
    pre: Pay,
    group_id: u64,
    id: u64,
    level: u8,
    amount: u64,
    now: u64,
)
    requires
        pay_refusal(pre, level, amount, now) is None,
    ensures
        ({
            let post = pay_next(pre, group_id, id, level, amount, now);
            let moves = pay_transfers(pre, level, amount);
            &&& gain(moves, Party::PaymentHolder) == post.payment_holder_account.lamports
                - pre.payment_holder_account.lamports
            &&& gain(moves, Party::GlobalHolder) == post.global_holder_account.lamports
                - pre.global_holder_account.lamports
        }),
{
    let moves = pay_transfers(pre, level, amount);
    if pre.payment_group_account.bypass {
        lemma_gain_of_one(moves[0], Party::PaymentHolder);
        lemma_gain_of_one(moves[0], Party::GlobalHolder);
    } else {
        lemma_gain_of_two(moves[0], moves[1], Party::PaymentHolder);
        lemma_gain_of_two(moves[0], moves[1], Party::GlobalHolder);
        assert(moves =~= seq![moves[0], moves[1]]);
    }
}

/// The transfer of an accepted cancellation is what its records show: the
/// escrow holder loses by it what its balance shrinks by.
pub proof fn lemma_cancel_transfers_match(pre: Cancel, amount: u64, now: u64)
    requires
        cancel_refusal(pre, amount, now) is None,
    ensures
        gain(cancel_transfers(pre, amount), Party::PaymentHolder) == cancel_next(
            pre,
            amount,
        ).payment_holder_account.lamports - pre.payment_holder_account.lamports,
{
    lemma_gain_of_one(cancel_transfers(pre, amount)[0], Party::PaymentHolder);
    assert(cancel_transfers(pre, amount) =~= seq![cancel_transfers(pre, amount)[0]]);
}

/// The transfer of an accepted withdrawal is what its records show: the
/// escrow holder loses by it what its balance shrinks by.
pub proof fn lemma_withdraw_transfers_match(pre: Withdraw, now: u64, min_rent: u64)
    requires
        withdraw_refusal(pre, now, min_rent) is None,
    ensures
        gain(withdraw_transfers(pre, now, min_rent), Party::PaymentHolder) == withdraw_next(
            pre,
            now,
            min_rent,
        ).payment_holder_account.lamports - pre.payment_holder_account.lamports,
{
    let moves = withdraw_transfers(pre, now, min_rent);
    lemma_gain_of_one(moves[0], Party::PaymentHolder);
    assert(moves =~= seq![moves[0]]);
}

/// The transfers of an accepted group creation are what its records show:
/// the fee holder gains by them what its balance grows by.
pub proof fn lemma_create_payment_group_transfers_match(
    pre: CreatePaymentGroup,
    creator: Option<Identity>,
    id: u64,
    withdraw_authority: Identity,
    lamports_per_sec: u64,
    bypass: bool,
)
    requires
        create_payment_group_refusal(pre, creator, bypass) is None,
    ensures
        gain(create_payment_group_transfers(pre, bypass), Party::GlobalHolder)
            == create_payment_group_next(
            pre,
            id,
            withdraw_authority,
            lamports_per_sec,
            bypass,
        ).global_holder_account.lamports - pre.global_holder_account.lamports,
{
    let moves = create_payment_group_transfers(pre, bypass);
    if !bypass {
        lemma_gain_of_one(moves[0], Party::GlobalHolder);
        assert(moves =~= seq![moves[0]]);
    }
}

/// The transfer of an accepted sweep is what its records show: the fee
/// holder loses by it what its balance shrinks by.
pub proof fn lemma_withdraw_program_funds_transfers_match(
    pre: WithdrawProgramFunds,
    creator: Option<Identity>,
    min_rent: u64,
)
    requires
        withdraw_program_funds_refusal(pre, creator, min_rent) is None,
    ensures
        gain(withdraw_program_funds_transfers(pre, min_rent), Party::GlobalHolder)
            == withdraw_program_funds_next(pre, min_rent).global_holder_account.lamports
            - pre.global_holder_account.lamports,
{
    let moves = withdraw_program_funds_transfers(pre, min_rent);
    lemma_gain_of_one(moves[0], Party::GlobalHolder);
    assert(moves =~= seq![moves[0]]);
}

} // verus!
