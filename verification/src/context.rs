//! The records each operation works on, resolved by the caller beforehand.
use crate::identity::Identity;
use crate::records::{GlobalDataAccount, Holder, PaymentAccount, PaymentGroupAccount};
use vstd::prelude::*;

verus! {

/// What `initialize` works on.
#[derive(Clone, Copy, Debug, PartialEq, Eq)]
pub struct Initialize {
    pub global_data_account: GlobalDataAccount,
}

/// What `modify_global_data` works on.
#[derive(Clone, Copy, Debug, PartialEq, Eq)]
pub struct ModifyGlobalData {
    pub signer: Identity,
    pub global_data_account: GlobalDataAccount,
}

/// What `create_payment_group` works on. The group record is fresh: every
/// field of it is written.
#[derive(Clone, Copy, Debug, PartialEq, Eq)]
pub struct CreatePaymentGroup {
    pub signer: Identity,
    pub payment_group_account: PaymentGroupAccount,
    pub global_data_account: GlobalDataAccount,
    pub global_holder_account: Holder,
}

/// What `modify_payment_group` works on.
#[derive(Clone, Copy, Debug, PartialEq, Eq)]
pub struct ModifyPaymentGroup {
    pub signer: Identity,
    pub payment_group_account: PaymentGroupAccount,
}

/// What `pay` works on.
#[derive(Clone, Copy, Debug, PartialEq, Eq)]
pub struct Pay {
    pub signer: Identity,
    pub payment_account: PaymentAccount,
    pub payment_holder_account: Holder,
    pub payment_group_account: PaymentGroupAccount,
    pub global_data_account: GlobalDataAccount,
    pub global_holder_account: Holder,
}

/// What `cancel` works on.
#[derive(Clone, Copy, Debug, PartialEq, Eq)]
pub struct Cancel {
    pub signer: Identity,
    pub payment_account: PaymentAccount,
    pub payment_holder_account: Holder,
    pub payment_group_account: PaymentGroupAccount,
}

/// What `withdraw` works on.
#[derive(Clone, Copy, Debug, PartialEq, Eq)]
pub struct Withdraw {
    pub signer: Identity,
    pub payment_account: PaymentAccount,
    pub payment_holder_account: Holder,
    pub payment_group_account: PaymentGroupAccount,
}

/// What `withdraw_program_funds` works on.
#[derive(Clone, Copy, Debug, PartialEq, Eq)]
pub struct WithdrawProgramFunds {
    pub signer: Identity,
    pub global_holder_account: Holder,
}

} // verus!
