use vstd::prelude::*;

verus! {

/// Every way an instruction can be refused. The first failing check decides.
#[derive(Clone, Copy, Debug, PartialEq, Eq, Structural)]
pub enum DiceErr {
    UnexpectedRollMode,
    IncorrectThreshold,
    IncorrectOwner,
    AccountNotRentExempt,
    AccountNotBalanceAccount,
    NotEnoughBalance,
    InvalidBet,
    InsufficientPool,
    InvalidAccountData,
    MissingSignature,
    NotEnoughAccountKeys,
    ArithmeticOverflow,
}

impl DiceErr {
    /// The numeric code under which the error is reported to the host.
    pub open spec fn spec_code(self) -> u32 {
        match self {
            DiceErr::UnexpectedRollMode => 0,
            DiceErr::IncorrectThreshold => 1,
            DiceErr::IncorrectOwner => 2,
            DiceErr::AccountNotRentExempt => 3,
            DiceErr::AccountNotBalanceAccount => 4,
            DiceErr::NotEnoughBalance => 5,
            DiceErr::InvalidBet => 6,
            DiceErr::InsufficientPool => 7,
            DiceErr::InvalidAccountData => 8,
            DiceErr::MissingSignature => 9,
            DiceErr::NotEnoughAccountKeys => 10,
            DiceErr::ArithmeticOverflow => 11,
        }
    }

    pub fn code(&self) -> (r: u32)
        ensures
            r == self.spec_code(),
    {
        match self {
            DiceErr::UnexpectedRollMode => 0,
            DiceErr::IncorrectThreshold => 1,
            DiceErr::IncorrectOwner => 2,
            DiceErr::AccountNotRentExempt => 3,
            DiceErr::AccountNotBalanceAccount => 4,
            DiceErr::NotEnoughBalance => 5,
            DiceErr::InvalidBet => 6,
            DiceErr::InsufficientPool => 7,
            DiceErr::InvalidAccountData => 8,
            DiceErr::MissingSignature => 9,
            DiceErr::NotEnoughAccountKeys => 10,
            DiceErr::ArithmeticOverflow => 11,
        }
    }

    /// A short human-readable description of the error.
    pub fn message(&self) -> (r: &'static str) {
        match self {
            DiceErr::UnexpectedRollMode => "Unexpected Roll Mode",
            DiceErr::IncorrectThreshold => "Incorrect Threshold",
            DiceErr::IncorrectOwner => "Incorrect Owner",
            DiceErr::AccountNotRentExempt => "Account Not Rent Exempt",
            DiceErr::AccountNotBalanceAccount => "Account Not Balance Account",
            DiceErr::NotEnoughBalance => "Not Enough Balance",
            DiceErr::InvalidBet => "Invalid Bet",
            DiceErr::InsufficientPool => "Insufficient Pool",
            DiceErr::InvalidAccountData => "Invalid Account Data",
            DiceErr::MissingSignature => "Missing Signature",
            DiceErr::NotEnoughAccountKeys => "Not Enough Account Keys",
            DiceErr::ArithmeticOverflow => "Arithmetic Overflow",
        }
    }
}

} // verus!
