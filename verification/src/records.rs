//! The records the ledger keeps, and the transfers it asks for.
use crate::identity::Identity;
use vstd::prelude::*;

verus! {

/// The platform-wide configuration.
#[derive(Clone, Copy, Debug, PartialEq, Eq)]
pub struct GlobalDataAccount {
    /// The platform's share of every payment, in percent.
    pub fee_perc: u64,
    /// The one-time price of creating a payment group, in lamports.
    pub init_fee: u64,
}

/// A tenant's billing policy.
#[derive(Clone, Copy, Debug, PartialEq, Eq)]
pub struct PaymentGroupAccount {
    pub id: u64,
    /// Who may rewrite this policy.
    pub modify_authority: Identity,
    /// Who may collect what elapsed time has earned.
    pub withdraw_authority: Identity,
    /// The price of one second at tier 1, in lamports.
    pub lamports_per_sec: u64,
    /// Whether payments under this policy are exempt from the platform's fee.
    pub bypass: bool,
}

/// A payer's running time account within a group.
#[derive(Clone, Copy, Debug, PartialEq, Eq)]
pub struct PaymentAccount {
    pub id: u64,
    pub group_id: u64,
    /// The payer that last bought time, who alone may cancel it.
    pub authority: Identity,
    /// The time, in seconds since the epoch, up to which service is paid for.
    pub until: u64,
    /// The service tier, a multiplier on the group's rate.
    pub level: u8,
}

/// A record that only holds value: the escrow behind one payment account,
/// or the platform's fee holder.
#[derive(Clone, Copy, Debug, PartialEq, Eq)]
pub struct Holder {
    pub lamports: u64,
}

/// One end of a transfer, named by its role in the operation.
#[derive(Clone, Copy, Debug, PartialEq, Eq)]
pub enum Party {
    /// The caller of the operation.
    Signer,
    /// The escrow holder of the payment account at hand.
    PaymentHolder,
    /// The platform's fee holder.
    GlobalHolder,
}

/// A movement of currency that an accepted operation calls for. The ledger
/// has already applied it to the holders it tracks; moving the currency
/// itself is left to whoever drives the ledger.
#[derive(Clone, Copy, Debug, PartialEq, Eq)]
pub struct Transfer {
    pub from: Party,
    pub to: Party,
    pub lamports: u64,
}

impl Transfer {
    /// What `party` gains by this transfer: its lamports where it receives
    /// them, their loss where it gives them, nothing where it does both or
    /// neither.
    pub open spec fn gain(self, party: Party) -> int {
        (if self.to == party {
            self.lamports as int
        } else {
            0
        }) - (if self.from == party {
            self.lamports as int
        } else {
            0
        })
    }
}

/// What `party` gains by all of `moves` together.
pub open spec fn gain(moves: Seq<Transfer>, party: Party) -> int
    decreases moves.len(),
{
    if moves.len() == 0 {
        0
    } else {
        gain(moves.drop_last(), party) + moves.last().gain(party)
    }
}

/// Transfers make no currency and lose none: what the three parties gain
/// adds up to nothing.
pub proof fn lemma_gain_balances(moves: Seq<Transfer>)
    ensures
        gain(moves, Party::Signer) + gain(moves, Party::PaymentHolder) + gain(
            moves,
            Party::GlobalHolder,
        ) == 0,
    decreases moves.len(),
{
    if moves.len() > 0 {
        lemma_gain_balances(moves.drop_last());
    }
}

/// The gain by a single transfer.
pub proof fn lemma_gain_of_one(transfer: Transfer, party: Party)
    ensures
        gain(seq![transfer], party) == transfer.gain(party),
{
    let moves = seq![transfer];
    assert(moves.drop_last().len() == 0);
    assert(moves.last() == transfer);
    reveal_with_fuel(gain, 2);
}

/// The gain by two transfers.
pub proof fn lemma_gain_of_two(first: Transfer, second: Transfer, party: Party)
    ensures
        gain(seq![first, second], party) == first.gain(party) + second.gain(party),
{
    let moves = seq![first, second];
    assert(moves.drop_last() =~= seq![first]);
    assert(moves.last() == second);
    lemma_gain_of_one(first, party);
}

} // verus!
