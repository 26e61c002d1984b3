//! A prepaid, time-metered escrow ledger.
//!
//! A payer buys seconds of a metered service at a tier, under the rate of a
//! payment group. The price sits in an escrow holder behind the payer's
//! account. The group's withdraw authority may collect what elapsed time has
//! earned; the payer may cancel time that has not yet elapsed and be paid
//! back. A share of every payment goes to the platform's fee holder, unless
//! the group is exempt.
//!
//! Every operation takes the records it works on, already resolved, and the
//! time as a count of seconds. It either refuses and changes nothing, or
//! updates the records and returns the transfers of currency that go with
//! the update. Moving the currency is left to the caller.
pub mod billing;
pub mod config;
pub mod context;
pub mod error;
pub mod group;
pub mod history;
pub mod identity;
pub mod laws;
pub mod payment;
pub mod records;

pub use config::{
    initialize, modify_global_data, modify_global_data_with_creator, withdraw_program_funds,
    withdraw_program_funds_with_creator,
};
pub use context::{
    Cancel, CreatePaymentGroup, Initialize, ModifyGlobalData, ModifyPaymentGroup, Pay, Withdraw,
    WithdrawProgramFunds,
};
pub use error::CustomError;
pub use group::{create_payment_group, create_payment_group_with_creator, modify_payment_group};
pub use identity::{creator, is_creator, Identity, CREATOR};
pub use payment::{cancel, pay, withdraw};
pub use records::{
    GlobalDataAccount, Holder, Party, PaymentAccount, PaymentGroupAccount, Transfer,
};
