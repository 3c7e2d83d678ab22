use vstd::prelude::*;

verus! {

/// Why an access-control operation was refused.
#[derive(Clone, Copy, Debug, PartialEq, Eq, Structural)]
pub enum AdminError {
    /// No administrator has been set.
    AdminNotSet,
    /// The admin pool to configure is empty.
    EmptyPool,
    /// The threshold is zero or larger than the pool.
    InvalidThreshold,
    /// The account does not belong to the admin pool.
    NotPoolMember,
    /// No proposal has the given identifier.
    ProposalNotFound,
    /// The proposal has already been executed.
    AlreadyExecuted,
    /// The account has already approved the proposal.
    AlreadyApproved,
    /// The proposal has fewer approvals than the threshold.
    ThresholdNotMet,
    /// The proposal is for another action.
    ActionMismatch,
    /// The account does not hold the required role.
    MissingRole,
    /// The proposal counter cannot be advanced.
    CounterOverflow,
}

/// Why a token operation was refused.
#[derive(Clone, Copy, Debug, PartialEq, Eq, Structural)]
pub enum TokenError {
    /// Contract has not been initialized.
    NotInitialized,
    /// Contract is currently paused.
    ContractPaused,
    /// Insufficient balance for operation.
    InsufficientBalance,
    /// Insufficient allowance for operation.
    InsufficientAllowance,
    /// Invalid amount provided.
    InvalidAmount,
    /// No fee configuration or treasury is stored.
    FeeNotConfigured,
    /// The payer cannot cover the fee.
    InsufficientFeeBalance,
    /// The contract has already been initialized.
    AlreadyInitialized,
    /// A batch holds no recipient.
    EmptyRecipients,
    /// No clawback administrator is set.
    ClawbackAdminNotSet,
    /// The account has no lockup.
    NoLockup,
    /// The lockup has not reached its unlock time.
    TokensStillLocked,
    /// No ownership transfer is pending.
    NoPendingAdmin,
    /// No token action is stored for the proposal.
    ProposalActionNotFound,
    /// An amount would leave the range of `i128`.
    ArithmeticOverflow,
    /// The access-control layer refused the operation.
    Admin(AdminError),
}

impl TokenError {
    /// The contract error code under which the error is reported.
    pub open spec fn spec_code(&self) -> u32 {
        match self {
            TokenError::NotInitialized => 1,
            TokenError::ContractPaused => 2,
            TokenError::InsufficientBalance => 3,
            TokenError::InsufficientAllowance => 4,
            TokenError::InvalidAmount => 5,
            TokenError::FeeNotConfigured => 6,
            TokenError::InsufficientFeeBalance => 7,
            TokenError::AlreadyInitialized => 8,
            TokenError::EmptyRecipients => 9,
            TokenError::ClawbackAdminNotSet => 10,
            TokenError::NoLockup => 11,
            TokenError::TokensStillLocked => 12,
            TokenError::NoPendingAdmin => 13,
            TokenError::ProposalActionNotFound => 14,
            TokenError::ArithmeticOverflow => 15,
            TokenError::Admin(e) => match e {
                AdminError::AdminNotSet => 100,
                AdminError::EmptyPool => 101,
                AdminError::InvalidThreshold => 102,
                AdminError::NotPoolMember => 103,
                AdminError::ProposalNotFound => 104,
                AdminError::AlreadyExecuted => 105,
                AdminError::AlreadyApproved => 106,
                AdminError::ThresholdNotMet => 107,
                AdminError::ActionMismatch => 108,
                AdminError::MissingRole => 109,
                AdminError::CounterOverflow => 110,
            },
        }
    }

    /// The contract error code under which the error is reported.
    #[verifier::when_used_as_spec(spec_code)]
    pub fn code(&self) -> (c: u32)
        ensures
            c == self.spec_code(),
    {
        match self {
            TokenError::NotInitialized => 1,
            TokenError::ContractPaused => 2,
            TokenError::InsufficientBalance => 3,
            TokenError::InsufficientAllowance => 4,
            TokenError::InvalidAmount => 5,
            TokenError::FeeNotConfigured => 6,
            TokenError::InsufficientFeeBalance => 7,
            TokenError::AlreadyInitialized => 8,
            TokenError::EmptyRecipients => 9,
            TokenError::ClawbackAdminNotSet => 10,
            TokenError::NoLockup => 11,
            TokenError::TokensStillLocked => 12,
            TokenError::NoPendingAdmin => 13,
            TokenError::ProposalActionNotFound => 14,
            TokenError::ArithmeticOverflow => 15,
            TokenError::Admin(e) => match e {
                AdminError::AdminNotSet => 100,
                AdminError::EmptyPool => 101,
                AdminError::InvalidThreshold => 102,
                AdminError::NotPoolMember => 103,
                AdminError::ProposalNotFound => 104,
                AdminError::AlreadyExecuted => 105,
                AdminError::AlreadyApproved => 106,
                AdminError::ThresholdNotMet => 107,
                AdminError::ActionMismatch => 108,
                AdminError::MissingRole => 109,
                AdminError::CounterOverflow => 110,
            },
        }
    }
}

} // verus!
