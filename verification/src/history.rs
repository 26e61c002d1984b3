//! The life of one payment account: its records under any sequence of
//! payments, cancellations and withdrawals.
use crate::billing::{covers, lemma_covers_later, lemma_remaining_sign};
use crate::context::{Cancel, Pay, Withdraw};
use crate::identity::Identity;
use crate::laws::{
    lemma_cancel_keeps_cover, lemma_pay_keeps_cover, lemma_withdraw_leaves_cover,
};
use crate::payment::{
    cancel_next, cancel_refusal, pay_next, pay_refusal, withdraw_next, withdraw_refusal,
};
use crate::records::{GlobalDataAccount, Holder, PaymentAccount, PaymentGroupAccount};
use vstd::prelude::*;

verus! {

/// The records that the operations on one payment account read and write.
pub struct Escrow {
    pub payment_account: PaymentAccount,
    pub payment_holder_account: Holder,
    pub payment_group_account: PaymentGroupAccount,
    pub global_data_account: GlobalDataAccount,
    pub global_holder_account: Holder,
}

/// One call on a payment account, with its signer and the time it is made at.
pub enum Call {
    Pay { signer: Identity, group_id: u64, id: u64, level: u8, amount: u64, now: u64 },
    Cancel { signer: Identity, amount: u64, now: u64 },
    Withdraw { signer: Identity, now: u64 },
}

impl Call {
    /// The time the call is made at.
    pub open spec fn time(self) -> u64 {
        match self {
            Call::Pay { now, .. } => now,
            Call::Cancel { now, .. } => now,
            Call::Withdraw { now, .. } => now,
        }
    }
}

impl Escrow {
    /// The records as a payment by `signer` finds them.
    pub open spec fn for_pay(self, signer: Identity) -> Pay {
        Pay {
            signer,
            payment_account: self.payment_account,
            payment_holder_account: self.payment_holder_account,
            payment_group_account: self.payment_group_account,
            global_data_account: self.global_data_account,
            global_holder_account: self.global_holder_account,
        }
    }

    /// The records as a cancellation by `signer` finds them.
    pub open spec fn for_cancel(self, signer: Identity) -> Cancel {
        Cancel {
            signer,
            payment_account: self.payment_account,
            payment_holder_account: self.payment_holder_account,
            payment_group_account: self.payment_group_account,
        }
    }

    /// The records as a withdrawal by `signer` finds them.
    pub open spec fn for_withdraw(self, signer: Identity) -> Withdraw {
        Withdraw {
            signer,
            payment_account: self.payment_account,
            payment_holder_account: self.payment_holder_account,
            payment_group_account: self.payment_group_account,
        }
    }

    /// The records after `call`: as the operation leaves them where it is
    /// accepted, unchanged where it is refused. Every withdrawal leaves the
    /// reserve `min_rent`.
    pub open spec fn after(self, call: Call, min_rent: u64) -> Escrow {
        match call {
            Call::Pay { signer, group_id, id, level, amount, now } => {
                let pre = self.for_pay(signer);
                if pay_refusal(pre, level, amount, now) is None {
                    let post = pay_next(pre, group_id, id, level, amount, now);
                    Escrow {
                        payment_account: post.payment_account,
                        payment_holder_account: post.payment_holder_account,
                        global_holder_account: post.global_holder_account,
                        ..self
                    }
                } else {
                    self
                }
            },
            Call::Cancel { signer, amount, now } => {
                let pre = self.for_cancel(signer);
                if cancel_refusal(pre, amount, now) is None {
                    let post = cancel_next(pre, amount);
                    Escrow {
                        payment_account: post.payment_account,
                        payment_holder_account: post.payment_holder_account,
                        ..self
                    }
                } else {
                    self
                }
            },
            Call::Withdraw { signer, now } => {
                let pre = self.for_withdraw(signer);
                if withdraw_refusal(pre, now, min_rent) is None {
                    let post = withdraw_next(pre, now, min_rent);
                    Escrow { payment_holder_account: post.payment_holder_account, ..self }
                } else {
                    self
                }
            },
        }
    }

    /// The records after every call of `calls`, first to last.
    pub open spec fn after_all(self, calls: Seq<Call>, min_rent: u64) -> Escrow
        decreases calls.len(),
    {
        if calls.len() == 0 {
            self
        } else {
            self.after(calls.first(), min_rent).after_all(calls.drop_first(), min_rent)
        }
    }

    /// Whether the escrow holder is good, at `now`, for the time still
    /// unexpired on the account and for the reserve `min_rent` besides.
    pub open spec fn covered(self, now: u64, min_rent: u64) -> bool {
        covers(
            self.payment_holder_account.lamports,
            self.payment_account.until,
            now,
            self.payment_account.level,
            self.payment_group_account.lamports_per_sec,
            min_rent,
        )
    }
}

/// Whether the calls are made one after another in time, none before `start`.
pub open spec fn in_order(calls: Seq<Call>, start: u64) -> bool {
    &&& forall|i: int| 0 <= i < calls.len() ==> start <= (#[trigger] calls[i]).time()
    &&& forall|i: int, j: int|
        0 <= i <= j < calls.len() ==> (#[trigger] calls[i]).time() <= (#[trigger] calls[j]).time()
}

/// Whether every payment among the calls is made at tier `level`.
pub open spec fn paid_at(calls: Seq<Call>, level: u8) -> bool {
    forall|i: int|
        0 <= i < calls.len() ==> ((#[trigger] calls[i]) matches Call::Pay { level: paid, .. }
            ==> paid == level)
}

/// The time of the last of the calls, or `start` where there is none.
pub open spec fn time_after(calls: Seq<Call>, start: u64) -> u64 {
    if calls.len() == 0 {
        start
    } else {
        calls.last().time()
    }
}

/// One call keeps the escrow holder good for its account: where the holder
/// covered the account at `start`, the call is made no earlier, and a payment
/// is at the account's own tier unless no time is left on the account, the
/// holder covers the account at the time of the call, refused or accepted.
pub proof fn lemma_call_keeps_cover(before: Escrow, call: Call, start: u64, min_rent: u64)
    requires
        before.covered(start, min_rent),
        start <= call.time(),
        call matches Call::Pay { level, .. } ==> level == before.payment_account.level
            || before.payment_account.until <= start,
    ensures
        before.after(call, min_rent).covered(call.time(), min_rent),
        before.after(call, min_rent).payment_group_account == before.payment_group_account,
        call matches Call::Pay { level, .. } ==> before.after(
            call,
            min_rent,
        ).payment_account.level == level || before.after(call, min_rent).payment_account.until
            <= call.time(),
        !(call is Pay) ==> before.after(call, min_rent).payment_account.level
            == before.payment_account.level,
        !(call is Pay) && before.payment_account.until <= start ==> before.after(
            call,
            min_rent,
        ).payment_account.until <= call.time(),
{
    lemma_covers_later(
        before.payment_holder_account.lamports,
        before.payment_account.until,
        start,
        call.time(),
        before.payment_account.level,
        before.payment_group_account.lamports_per_sec,
        min_rent,
    );
    match call {
        Call::Pay { signer, group_id, id, level, amount, now } => {
            let pre = before.for_pay(signer);
            if pay_refusal(pre, level, amount, now) is None {
                lemma_pay_keeps_cover(pre, group_id, id, level, amount, now, min_rent);
            }
        },
        Call::Cancel { signer, amount, now } => {
            let pre = before.for_cancel(signer);
            if cancel_refusal(pre, amount, now) is None {
                lemma_cancel_keeps_cover(pre, amount, now, min_rent);
            }
        },
        Call::Withdraw { signer, now } => {
            let pre = before.for_withdraw(signer);
            if withdraw_refusal(pre, now, min_rent) is None {
                lemma_withdraw_leaves_cover(pre, now, min_rent);
            }
        },
    }
}

/// The escrow holder never falls below its reserve. Take records whose
/// holder covers the account at `start`, and any calls made in order of time
/// from `start` on, under one rate and one reserve, every payment at tier
/// `level`, which is the account's own tier unless the account has no time
/// left at `start`. Then after all the calls, accepted or refused, the holder
/// covers the account at the time of the last call, and so holds at least
/// the reserve.
pub proof fn lemma_holder_keeps_reserve(
    before: Escrow,
    calls: Seq<Call>,
    start: u64,
    level: u8,
    min_rent: u64,
)
    requires
        before.covered(start, min_rent),
        in_order(calls, start),
        paid_at(calls, level),
        before.payment_account.level == level || before.payment_account.until <= start,
    ensures
        before.after_all(calls, min_rent).covered(time_after(calls, start), min_rent),
        before.after_all(calls, min_rent).payment_holder_account.lamports >= min_rent,
    decreases calls.len(),
{
    let last = before.after_all(calls, min_rent);
    if calls.len() == 0 {
    } else {
        let call = calls.first();
        let rest = calls.drop_first();
        let next = before.after(call, min_rent);
        assert(start <= calls[0].time());
        lemma_call_keeps_cover(before, call, start, min_rent);
        assert forall|i: int| 0 <= i < rest.len() implies call.time() <= (#[trigger] rest[i]).time() by {
            assert(rest[i] == calls[i + 1]);
            assert(calls[0].time() <= calls[i + 1].time());
        }
        assert forall|i: int, j: int| 0 <= i <= j < rest.len() implies (#[trigger] rest[i]).time() <= (
        #[trigger] rest[j]).time() by {
            assert(rest[i] == calls[i + 1]);
            assert(rest[j] == calls[j + 1]);
        }
        assert forall|i: int| 0 <= i < rest.len() implies ((#[trigger] rest[i]) matches Call::Pay {
            level: paid,
            ..
        } ==> paid == level) by {
            assert(rest[i] == calls[i + 1]);
        }
        lemma_holder_keeps_reserve(next, rest, call.time(), level, min_rent);
        if rest.len() > 0 {
            assert(rest.last() == calls.last());
        }
    }
    lemma_remaining_sign(
        last.payment_account.until,
        time_after(calls, start),
        last.payment_account.level,
        last.payment_group_account.lamports_per_sec,
    );
}

} // verus!
