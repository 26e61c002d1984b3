//! Rate arithmetic: what a span of prepaid time is worth, the platform's
//! share of a payment, and how a payment moves the paid-until time.
use crate::error::CustomError;
use vstd::prelude::*;

verus! {

/// The worth in lamports of `seconds` of service at tier `level`, billed at
/// `lamports_per_sec` per second and tier.
pub open spec fn lamports_needed(seconds: u64, level: u8, lamports_per_sec: u64) -> int {
    seconds * level * lamports_per_sec
}

/// Whether `lamports_needed` can be computed in `u64`: neither the tiered
/// seconds nor the full product may leave the range.
pub open spec fn lamports_needed_fits(seconds: u64, level: u8, lamports_per_sec: u64) -> bool {
    seconds * level <= u64::MAX && seconds * level * lamports_per_sec <= u64::MAX
}

/// The platform's share of a payment of `cost` lamports at `fee_perc` percent,
/// rounded down.
pub open spec fn fee_of(cost: u64, fee_perc: u64) -> int {
    cost * fee_perc / 100
}

/// Whether `fee_of` can be computed in `u64`: the product taken before the
/// division must stay in range.
pub open spec fn fee_fits(cost: u64, fee_perc: u64) -> bool {
    cost * fee_perc <= u64::MAX
}

/// The moment from which newly bought time counts: the present for a lapsed
/// account, the end of the time already paid for otherwise.
pub open spec fn paid_from(until: u64, now: u64) -> u64 {
    if until < now {
        now
    } else {
        until
    }
}

/// The paid-until time after `amount` more seconds are bought at `now`.
pub open spec fn extended_until(until: u64, now: u64, amount: u64) -> int {
    paid_from(until, now) + amount
}

/// The worth of the time still unexpired at `now`: what the escrow holder
/// must keep back, besides its reserve, when elapsed time is paid out.
pub open spec fn remaining(until: u64, now: u64, level: u8, lamports_per_sec: u64) -> int {
    if until > now {
        lamports_needed((until - now) as u64, level, lamports_per_sec)
    } else {
        0
    }
}

/// Whether `remaining` can be computed in `u64`. Where no time is left
/// there is nothing to multiply.
pub open spec fn remaining_fits(until: u64, now: u64, level: u8, lamports_per_sec: u64) -> bool {
    until > now ==> lamports_needed_fits((until - now) as u64, level, lamports_per_sec)
}

/// Whether a holder with `lamports` is good for the time still unexpired at
/// `now` and for its reserve `min_rent` besides.
pub open spec fn covers(
    lamports: u64,
    until: u64,
    now: u64,
    level: u8,
    lamports_per_sec: u64,
    min_rent: u64,
) -> bool {
    lamports >= remaining(until, now, level, lamports_per_sec) + min_rent
}

/// The worth of two spans of time is the sum of their worths.
pub proof fn lemma_lamports_needed_adds(first: u64, second: u64, level: u8, lamports_per_sec: u64)
    requires
        first + second <= u64::MAX,
    ensures
        lamports_needed((first + second) as u64, level, lamports_per_sec) == lamports_needed(
            first,
            level,
            lamports_per_sec,
        ) + lamports_needed(second, level, lamports_per_sec),
{
    assert((first + second) * level * lamports_per_sec == first * level * lamports_per_sec + second
        * level * lamports_per_sec) by (nonlinear_arith);
}

/// Time is worth nothing less than nothing, and no time is worth nothing.
pub proof fn lemma_lamports_needed_sign(seconds: u64, level: u8, lamports_per_sec: u64)
    ensures
        lamports_needed(seconds, level, lamports_per_sec) >= 0,
        lamports_needed(0, level, lamports_per_sec) == 0,
{
    assert(seconds * level * lamports_per_sec >= 0) by (nonlinear_arith);
    assert(0 * level * lamports_per_sec == 0) by (nonlinear_arith);
}

/// What is still owed is never less than nothing.
pub proof fn lemma_remaining_sign(until: u64, now: u64, level: u8, lamports_per_sec: u64)
    ensures
        remaining(until, now, level, lamports_per_sec) >= 0,
{
    if until > now {
        lemma_lamports_needed_sign((until - now) as u64, level, lamports_per_sec);
    }
}

/// What is still owed only shrinks as time goes by, so a holder that covers
/// its account at one moment covers it at every later one.
pub proof fn lemma_covers_later(
    lamports: u64,
    until: u64,
    now: u64,
    later: u64,
    level: u8,
    lamports_per_sec: u64,
    min_rent: u64,
)
    requires
        now <= later,
        covers(lamports, until, now, level, lamports_per_sec, min_rent),
    ensures
        remaining(until, later, level, lamports_per_sec) <= remaining(
            until,
            now,
            level,
            lamports_per_sec,
        ),
        covers(lamports, until, later, level, lamports_per_sec, min_rent),
{
    if until > later {
        lemma_lamports_needed_adds(
            (until - later) as u64,
            (later - now) as u64,
            level,
            lamports_per_sec,
        );
        lemma_lamports_needed_sign((later - now) as u64, level, lamports_per_sec);
    } else if until > now {
        lemma_lamports_needed_sign((until - now) as u64, level, lamports_per_sec);
    }
}

/// Prices `seconds` at tier `level`, checking both multiplications.
pub fn checked_lamports_needed(seconds: u64, level: u8, lamports_per_sec: u64) -> (res: Result<
    u64,
    CustomError,
>)
    ensures
        lamports_needed_fits(seconds, level, lamports_per_sec) ==> res == Ok::<u64, CustomError>(
            lamports_needed(seconds, level, lamports_per_sec) as u64,
        ),
        !lamports_needed_fits(seconds, level, lamports_per_sec) ==> res == Err::<u64, CustomError>(
            CustomError::OverflowError,
        ),
{
    match seconds.checked_mul(level as u64) {
        None => Err(CustomError::OverflowError),
        Some(tiered) => match tiered.checked_mul(lamports_per_sec) {
            None => Err(CustomError::OverflowError),
            Some(cost) => Ok(cost),
        },
    }
}

/// Takes `fee_perc` percent of `cost`, checking the multiplication.
pub fn checked_fee(cost: u64, fee_perc: u64) -> (res: Result<u64, CustomError>)
    ensures
        fee_fits(cost, fee_perc) ==> res == Ok::<u64, CustomError>(fee_of(cost, fee_perc) as u64),
        !fee_fits(cost, fee_perc) ==> res == Err::<u64, CustomError>(CustomError::OverflowError),
{
    match cost.checked_mul(fee_perc) {
        None => Err(CustomError::OverflowError),
        Some(scaled) => Ok(scaled / 100),
    }
}

/// Adds `amount` seconds to the paid-until time: on top of the present for a
/// lapsed account, on top of the time already paid for otherwise.
pub fn checked_extended_until(until: u64, now: u64, amount: u64) -> (res: Result<u64, CustomError>)
    ensures
        extended_until(until, now, amount) <= u64::MAX ==> res == Ok::<u64, CustomError>(
            extended_until(until, now, amount) as u64,
        ),
        extended_until(until, now, amount) > u64::MAX ==> res == Err::<u64, CustomError>(
            CustomError::OverflowError,
        ),
{
    let from: u64 = if until < now {
        now
    } else {
        until
    };
    match from.checked_add(amount) {
        None => Err(CustomError::OverflowError),
        Some(extended) => Ok(extended),
    }
}

/// Prices the time still unexpired at `now`, checking both multiplications.
pub fn checked_remaining(until: u64, now: u64, level: u8, lamports_per_sec: u64) -> (res: Result<
    u64,
    CustomError,
>)
    ensures
        remaining_fits(until, now, level, lamports_per_sec) ==> res == Ok::<u64, CustomError>(
            remaining(until, now, level, lamports_per_sec) as u64,
        ),
        !remaining_fits(until, now, level, lamports_per_sec) ==> res == Err::<u64, CustomError>(
            CustomError::OverflowError,
        ),
{
    if until > now {
        checked_lamports_needed(until - now, level, lamports_per_sec)
    } else {
        Ok(0)
    }
}

} // verus!
