use vstd::prelude::*;

verus! {

/// An account, identified by a number that stands for its address.
pub type AccountId = u64;

/// A role that an account can hold.
#[derive(Clone, Copy, Debug, PartialEq, Eq, Structural)]
pub enum Role {
    /// Global administrator with full control.
    Admin,
    /// Account authorized to mint tokens.
    Minter,
}

/// Types of critical administrative actions that may require multi-signature approval.
#[derive(Clone, Copy, Debug, PartialEq, Eq, Structural)]
pub enum CriticalAction {
    /// Change the contract administrator.
    ChangeAdmin,
    /// Modify the admin pool or threshold.
    ModifyAdminPool,
    /// Pause or unpause contract operations.
    PauseContract,
    /// Upgrade contract implementation.
    UpgradeContract,
    /// Change critical contract parameters.
    ChangeParameters,
    /// Mint tokens.
    MintTokens,
    /// Burn tokens.
    BurnTokens,
    /// Transfer ownership of contract.
    TransferOwnership,
}

impl CriticalAction {
    /// The number under which the action is stored.
    pub open spec fn spec_code(&self) -> u8 {
        match self {
            CriticalAction::ChangeAdmin => 0,
            CriticalAction::ModifyAdminPool => 1,
            CriticalAction::PauseContract => 2,
            CriticalAction::UpgradeContract => 3,
            CriticalAction::ChangeParameters => 4,
            CriticalAction::MintTokens => 5,
            CriticalAction::BurnTokens => 6,
            CriticalAction::TransferOwnership => 7,
        }
    }

    #[verifier::when_used_as_spec(spec_code)]
    pub fn code(&self) -> (c: u8)
        ensures
            c == self.spec_code(),
    {
        match self {
            CriticalAction::ChangeAdmin => 0,
            CriticalAction::ModifyAdminPool => 1,
            CriticalAction::PauseContract => 2,
            CriticalAction::UpgradeContract => 3,
            CriticalAction::ChangeParameters => 4,
            CriticalAction::MintTokens => 5,
            CriticalAction::BurnTokens => 6,
            CriticalAction::TransferOwnership => 7,
        }
    }

    /// Two actions with the same code are the same action.
    pub proof fn lemma_code_injective(a: CriticalAction, b: CriticalAction)
        ensures
            a.spec_code() == b.spec_code() <==> a == b,
    {
    }
}

/// Information about a token lockup.
#[derive(Clone, Copy, Debug, PartialEq, Eq, Structural)]
pub struct LockupInfo {
    pub amount: i128,
    pub unlock_time: u64,
}

/// Information about an allowance, including amount and expiration ledger.
#[derive(Clone, Copy, Debug, PartialEq, Eq, Structural)]
pub struct AllowanceInfo {
    pub amount: i128,
    /// The last ledger at which the allowance may be spent; 0 means no expiration.
    pub exp_ledger: u32,
}

/// Possible actions that can be proposed via multi-sig.
#[derive(Clone, Copy, Debug, PartialEq, Eq, Structural)]
pub enum TokenAction {
    Mint(AccountId, i128),
    Pause,
    Unpause,
}

impl TokenAction {
    /// The critical action under which a token action is proposed.
    pub open spec fn spec_critical_action(&self) -> CriticalAction {
        match self {
            TokenAction::Mint(_, _) => CriticalAction::MintTokens,
            TokenAction::Pause => CriticalAction::PauseContract,
            TokenAction::Unpause => CriticalAction::PauseContract,
        }
    }

    #[verifier::when_used_as_spec(spec_critical_action)]
    pub fn critical_action(&self) -> (c: CriticalAction)
        ensures
            c == self.spec_critical_action(),
    {
        match self {
            TokenAction::Mint(_, _) => CriticalAction::MintTokens,
            TokenAction::Pause => CriticalAction::PauseContract,
            TokenAction::Unpause => CriticalAction::PauseContract,
        }
    }
}

/// A mint recipient with address and amount.
#[derive(Clone, Copy, Debug, PartialEq, Eq, Structural)]
pub struct Recipient {
    pub address: AccountId,
    pub amount: i128,
}

/// How the fee of an operation is computed.
#[derive(Clone, Copy, Debug, PartialEq, Eq, Structural)]
pub struct FeeConfig {
    pub enabled: bool,
    pub base_fee: i128,
    pub complexity_multiplier: u32,
    pub max_fee: i128,
}

/// An exemption from fees: type 0 covers every operation, another type the
/// operations of that type.
#[derive(Clone, Copy, Debug, PartialEq, Eq, Structural)]
pub struct FeeExemption {
    pub exemption_type: u8,
}

} // verus!
