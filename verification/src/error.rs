use vstd::prelude::*;

verus! {

/// Why an operation was refused. A refused operation changes nothing.
#[derive(Clone, Copy, Debug, PartialEq, Eq, Structural)]
pub enum CustomError {
    /// The signer is not the platform operator, where a fee-exempt group
    /// is created or the platform's fees are swept.
    InvalidCreator,
    /// The signer is not the group's modify authority.
    InvalidModifyAuthority,
    /// The signer is not the owner recorded on the payment account.
    InvalidPaymentAuthority,
    /// The cancellation would remove time that has already elapsed.
    CannotCancelPast,
    /// A checked multiplication, addition or subtraction left the `u64` range.
    OverflowError,
    /// The signer is not the group's withdraw authority.
    InvalidWithdrawAuthority,
    /// The signer is not the platform operator, where the global
    /// configuration is rewritten.
    Unauthorized,
    /// The tier supplied is less than 1.
    InvalidLevel,
}

impl CustomError {
    /// The text shown to a caller for this error.
    pub fn message(&self) -> (text: &'static str)
        ensures
            text@ == self.message_text(),
    {
        match self {
            CustomError::InvalidCreator => "Invalid creator",
            CustomError::InvalidModifyAuthority => "Invalid modify authority",
            CustomError::InvalidPaymentAuthority => "Invalid payment authority",
            CustomError::CannotCancelPast => "Cannot cancel past",
            CustomError::OverflowError => "Overflow error",
            CustomError::InvalidWithdrawAuthority => "Invalid withdraw authority",
            CustomError::Unauthorized => "Unauthorized",
            CustomError::InvalidLevel => "Invalid level",
        }
    }

    /// The characters of `message`.
    pub open spec fn message_text(&self) -> Seq<char> {
        match self {
            CustomError::InvalidCreator => "Invalid creator"@,
            CustomError::InvalidModifyAuthority => "Invalid modify authority"@,
            CustomError::InvalidPaymentAuthority => "Invalid payment authority"@,
            CustomError::CannotCancelPast => "Cannot cancel past"@,
            CustomError::OverflowError => "Overflow error"@,
            CustomError::InvalidWithdrawAuthority => "Invalid withdraw authority"@,
            CustomError::Unauthorized => "Unauthorized"@,
            CustomError::InvalidLevel => "Invalid level"@,
        }
    }
}

} // verus!
