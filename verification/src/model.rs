//! The token contract as a mathematical state machine: its state as plain values
//! and, for each entry point, the outcome it gives.

use vstd::prelude::*;
use crate::admin::AdminView;
use crate::error::{AdminError, TokenError};
use crate::events::{EventView, ReceiptView};
use crate::sums::sum_by;
use crate::types::{AccountId, AllowanceInfo, FeeConfig, FeeExemption, LockupInfo, Recipient, Role, TokenAction};

verus! {

/// Whether an integer lies in the range of `i128`.
pub open spec fn fits(x: int) -> bool {
    i128::MIN <= x <= i128::MAX
}

/// The result of an operation: the next state and the receipt, or the refusal.
pub type Outcome = Result<(TokenView, ReceiptView), TokenError>;

/// What a balance entry adds to a sum.
pub open spec fn balance_weight() -> spec_fn(i128) -> int {
    |b: i128| b as int
}

/// What a lockup adds to a sum.
pub open spec fn lockup_weight() -> spec_fn(LockupInfo) -> int {
    |l: LockupInfo| l.amount as int
}

/// The sum of all balances.
pub open spec fn balance_total(m: Map<AccountId, i128>) -> int {
    sum_by(m, balance_weight())
}

/// The sum of all locked amounts.
pub open spec fn locked_total(m: Map<AccountId, LockupInfo>) -> int {
    sum_by(m, lockup_weight())
}

/// The balance of an account in a balance map, zero when absent.
pub open spec fn balance_in(m: Map<AccountId, i128>, a: AccountId) -> i128 {
    if m.contains_key(a) {
        m[a]
    } else {
        0
    }
}

/// The outcome of a refused request.
pub open spec fn refuse(e: TokenError) -> Outcome {
    Err(e)
}

/// The whole contract state as plain values.
pub struct TokenView {
    /// Administrator, roles, pool and proposals.
    pub access: AdminView,
    /// Whether operations are paused.
    pub paused: bool,
    pub decimals: Option<u32>,
    pub name: Option<Seq<char>>,
    pub symbol: Option<Seq<char>>,
    /// The recorded total supply.
    pub supply: Option<i128>,
    /// Spendable balances.
    pub balances: Map<AccountId, i128>,
    /// Allowances by (owner, spender).
    pub allowances: Map<(AccountId, AccountId), AllowanceInfo>,
    /// The proposed next administrator.
    pub pending_admin: Option<AccountId>,
    /// The account allowed to claw balances back.
    pub clawback_admin: Option<AccountId>,
    /// Locked amounts by account.
    pub lockups: Map<AccountId, LockupInfo>,
    /// The token action behind each pending proposal.
    pub proposal_actions: Map<u64, TokenAction>,
    pub treasury: Option<AccountId>,
    pub fee_config: Option<FeeConfig>,
    pub fee_exemptions: Map<AccountId, FeeExemption>,
}

impl TokenView {
    /// The state of a freshly deployed contract.
    pub open spec fn initial() -> TokenView {
        TokenView {
            access: AdminView::initial(),
            paused: false,
            decimals: None,
            name: None,
            symbol: None,
            supply: None,
            balances: Map::empty(),
            allowances: Map::empty(),
            pending_admin: None,
            clawback_admin: None,
            lockups: Map::empty(),
            proposal_actions: Map::empty(),
            treasury: None,
            fee_config: None,
            fee_exemptions: Map::empty(),
        }
    }

    pub open spec fn initialized(self) -> bool {
        self.access.admin is Some
    }

    pub open spec fn balance_of(self, a: AccountId) -> i128 {
        balance_in(self.balances, a)
    }

    pub open spec fn supply_value(self) -> i128 {
        match self.supply {
            Some(s) => s,
            None => 0,
        }
    }

    pub open spec fn allowance_info(self, from: AccountId, spender: AccountId) -> AllowanceInfo {
        if self.allowances.contains_key((from, spender)) {
            self.allowances[(from, spender)]
        } else {
            AllowanceInfo { amount: 0, exp_ledger: 0 }
        }
    }

    /// The allowance that can be spent at ledger `ledger`: nothing once the
    /// expiration ledger (when not 0) has passed.
    pub open spec fn live_allowance(self, from: AccountId, spender: AccountId, ledger: u32) -> i128 {
        let info = self.allowance_info(from, spender);
        if info.exp_ledger > 0 && ledger > info.exp_ledger {
            0
        } else {
            info.amount
        }
    }

    /// Everything held: balances plus locked amounts.
    pub open spec fn total_held(self) -> int {
        balance_total(self.balances) + locked_total(self.lockups)
    }

    /// The ledger is consistent when the recorded supply equals everything
    /// held, and no supply is recorded before initialization.
    pub open spec fn ledger_consistent(self) -> bool {
        &&& self.balances.dom().finite()
        &&& self.lockups.dom().finite()
        &&& self.supply_value() == self.total_held()
        &&& !self.initialized() ==> self.supply is None
    }

    pub open spec fn with_balance(self, a: AccountId, v: i128) -> TokenView {
        TokenView { balances: self.balances.insert(a, v), ..self }
    }

    pub open spec fn with_supply(self, v: i128) -> TokenView {
        TokenView { supply: Some(v), ..self }
    }

    pub open spec fn with_allowance(
        self,
        from: AccountId,
        spender: AccountId,
        amount: i128,
        exp_ledger: u32,
    ) -> TokenView {
        TokenView {
            allowances: self.allowances.insert(
                (from, spender),
                AllowanceInfo { amount, exp_ledger },
            ),
            ..self
        }
    }

    pub open spec fn with_access(self, access: AdminView) -> TokenView {
        TokenView { access, ..self }
    }

    /// Moves `amount` from `from` to `to`; nothing moves when they are the same account.
    pub open spec fn move_balance(self, from: AccountId, to: AccountId, amount: i128) -> Result<
        TokenView,
        TokenError,
    > {
        let fb = self.balance_of(from);
        let tb = self.balance_of(to);
        if fb < amount {
            Err(TokenError::InsufficientBalance)
        } else if from == to {
            Ok(self)
        } else if !fits(fb - amount) || !fits(tb + amount) {
            Err(TokenError::ArithmeticOverflow)
        } else {
            Ok(self.with_balance(from, (fb - amount) as i128).with_balance(to, (tb + amount) as i128))
        }
    }

    /// Credits a positive amount to `to` and to the supply, reporting the mint.
    pub open spec fn mint_to(self, to: AccountId, amount: i128) -> Result<
        (TokenView, EventView),
        TokenError,
    > {
        let b = self.balance_of(to) + amount;
        let s = self.supply_value() + amount;
        if amount <= 0 {
            Err(TokenError::InvalidAmount)
        } else if !fits(b) || !fits(s) {
            Err(TokenError::ArithmeticOverflow)
        } else {
            match self.access.admin {
                None => Err(TokenError::Admin(AdminError::AdminNotSet)),
                Some(admin) => Ok(
                    (
                        self.with_balance(to, b as i128).with_supply(s as i128),
                        EventView::Mint {
                            admin,
                            to,
                            amount,
                            balance: b as i128,
                            supply: s as i128,
                        },
                    ),
                ),
            }
        }
    }

    /// `initialize`: sets the administrator and the token metadata, once.
    pub open spec fn initialize(
        self,
        admin: AccountId,
        decimal: u32,
        name: Seq<char>,
        symbol: Seq<char>,
    ) -> Outcome {
        if self.initialized() {
            refuse(TokenError::AlreadyInitialized)
        } else {
            Ok(
                (
                    TokenView {
                        access: self.access.with_admin(admin),
                        decimals: Some(decimal),
                        name: Some(name),
                        symbol: Some(symbol),
                        supply: Some(0),
                        ..self
                    },
                    ReceiptView::new(
                        seq![admin],
                        seq![EventView::Initialized { admin, decimal, name, symbol }],
                    ),
                ),
            )
        }
    }

    /// `mint`: the administrator credits a positive amount.
    pub open spec fn mint(self, to: AccountId, amount: i128) -> Outcome {
        if self.paused {
            refuse(TokenError::ContractPaused)
        } else {
            match self.access.admin {
                None => refuse(TokenError::Admin(AdminError::AdminNotSet)),
                Some(admin) => match self.mint_to(to, amount) {
                    Err(e) => refuse(e),
                    Ok((t, ev)) => Ok((t, ReceiptView::new(seq![admin], seq![ev]))),
                },
            }
        }
    }

    /// `set_admin_pool`: the administrator configures the pool (and signs twice,
    /// once for the token and once for the access-control layer).
    pub open spec fn set_admin_pool(self, pool: Seq<AccountId>, threshold: u32) -> Outcome {
        match self.access.admin {
            None => refuse(TokenError::Admin(AdminError::AdminNotSet)),
            Some(admin) => match self.access.pool_refusal(pool, threshold) {
                Some(e) => refuse(TokenError::Admin(e)),
                None => Ok(
                    (
                        self.with_access(self.access.with_pool(pool, threshold)),
                        ReceiptView::new(seq![admin, admin], Seq::empty()),
                    ),
                ),
            },
        }
    }

    /// `propose_action`: a pool member proposes a token action; the proposal's
    /// identifier is the access layer's next one.
    pub open spec fn propose_action(
        self,
        admin: AccountId,
        action: TokenAction,
        description: Seq<char>,
    ) -> Outcome {
        match self.access.creation_refusal(admin) {
            Some(e) => refuse(TokenError::Admin(e)),
            None => Ok(
                (
                    TokenView {
                        access: self.access.with_new_proposal(
                            admin,
                            action.spec_critical_action(),
                            description,
                        ),
                        proposal_actions: self.proposal_actions.insert(
                            self.access.next_proposal_id,
                            action,
                        ),
                        ..self
                    },
                    ReceiptView::new(seq![admin], Seq::empty()),
                ),
            ),
        }
    }

    /// `approve_proposal`: a pool member approves a pending proposal.
    pub open spec fn approve_proposal(self, admin: AccountId, proposal_id: u64) -> Outcome {
        match self.access.approval_refusal(admin, proposal_id) {
            Some(e) => refuse(TokenError::Admin(e)),
            None => Ok(
                (
                    self.with_access(self.access.with_approval(admin, proposal_id)),
                    ReceiptView::new(seq![admin], Seq::empty()),
                ),
            ),
        }
    }

    /// `execute_proposal`: marks a ready proposal executed and performs its action.
    pub open spec fn execute_proposal(self, proposal_id: u64) -> Outcome {
        match self.access.execution_refusal(proposal_id) {
            Some(e) => refuse(TokenError::Admin(e)),
            None => if !self.proposal_actions.contains_key(proposal_id) {
                refuse(TokenError::ProposalActionNotFound)
            } else {
                let marked = TokenView {
                    access: self.access.with_executed(proposal_id),
                    proposal_actions: self.proposal_actions.remove(proposal_id),
                    ..self
                };
                match self.proposal_actions[proposal_id] {
                    TokenAction::Mint(to, amount) => if self.paused {
                        refuse(TokenError::ContractPaused)
                    } else {
                        match marked.mint_to(to, amount) {
                            Err(e) => refuse(e),
                            Ok((t, ev)) => Ok((t, ReceiptView::new(Seq::empty(), seq![ev]))),
                        }
                    },
                    TokenAction::Pause => match self.access.admin {
                        None => refuse(TokenError::Admin(AdminError::AdminNotSet)),
                        Some(admin) => Ok(
                            (
                                TokenView { paused: true, ..marked },
                                ReceiptView::new(seq![admin], seq![EventView::Paused { admin }]),
                            ),
                        ),
                    },
                    TokenAction::Unpause => match self.access.admin {
                        None => refuse(TokenError::Admin(AdminError::AdminNotSet)),
                        Some(admin) => Ok(
                            (
                                TokenView { paused: false, ..marked },
                                ReceiptView::new(seq![admin], seq![EventView::Unpaused { admin }]),
                            ),
                        ),
                    },
                }
            },
        }
    }

    /// `set_clawback_admin`: the administrator designates the clawback administrator.
    pub open spec fn set_clawback_admin(self, admin: AccountId) -> Outcome {
        match self.access.admin {
            None => refuse(TokenError::Admin(AdminError::AdminNotSet)),
            Some(a) => Ok(
                (
                    TokenView { clawback_admin: Some(admin), ..self },
                    ReceiptView::new(seq![a], Seq::empty()),
                ),
            ),
        }
    }

    /// `clawback`: unless paused, the clawback administrator moves a positive amount.
    pub open spec fn clawback(self, from: AccountId, to: AccountId, amount: i128) -> Outcome {
        if self.paused {
            refuse(TokenError::ContractPaused)
        } else {
        match self.clawback_admin {
            None => refuse(TokenError::ClawbackAdminNotSet),
            Some(claw) => if amount <= 0 {
                refuse(TokenError::InvalidAmount)
            } else {
                match self.move_balance(from, to, amount) {
                    Err(e) => refuse(e),
                    Ok(t) => Ok(
                        (
                            t,
                            ReceiptView::new(
                                seq![claw],
                                seq![EventView::Clawback { admin: claw, from, to, amount }],
                            ),
                        ),
                    ),
                }
            },
        }
        }
    }

    /// `grant_role`: once an administrator is set, it must sign.
    pub open spec fn grant_role(self, role: Role, address: AccountId) -> Outcome {
        Ok(
            (
                self.with_access(self.access.with_role(role, address)),
                ReceiptView::new(
                    match self.access.admin {
                        Some(a) => seq![a],
                        None => Seq::empty(),
                    },
                    Seq::empty(),
                ),
            ),
        )
    }

    /// `revoke_role`: the administrator revokes a role.
    pub open spec fn revoke_role(self, role: Role, address: AccountId) -> Outcome {
        match self.access.admin {
            None => refuse(TokenError::Admin(AdminError::AdminNotSet)),
            Some(a) => Ok(
                (
                    self.with_access(self.access.without_role(role, address)),
                    ReceiptView::new(seq![a], Seq::empty()),
                ),
            ),
        }
    }

    /// The balances after crediting the recipients in order, the running total
    /// minted, and one mint report per recipient.
    pub open spec fn batch_credit(
        self,
        admin: AccountId,
        recipients: Seq<Recipient>,
    ) -> Result<(Map<AccountId, i128>, int, Seq<EventView>), TokenError>
        decreases recipients.len(),
    {
        if recipients.len() == 0 {
            Ok((self.balances, 0, Seq::empty()))
        } else {
            match self.batch_credit(admin, recipients.drop_last()) {
                Err(e) => Err(e),
                Ok((bal, total, events)) => {
                    let r = recipients.last();
                    let nb = balance_in(bal, r.address) + r.amount;
                    let nt = total + r.amount;
                    if !fits(nb) || !fits(nt) || !fits(self.supply_value() + nt) {
                        Err(TokenError::ArithmeticOverflow)
                    } else {
                        Ok(
                            (
                                bal.insert(r.address, nb as i128),
                                nt,
                                events.push(
                                    EventView::Mint {
                                        admin,
                                        to: r.address,
                                        amount: r.amount,
                                        balance: nb as i128,
                                        supply: (self.supply_value() + nt) as i128,
                                    },
                                ),
                            ),
                        )
                    }
                },
            }
        }
    }

    /// `batch_mint`: the administrator mints to every recipient, all or nothing.
    pub open spec fn batch_mint(self, recipients: Seq<Recipient>) -> Outcome {
        if self.paused {
            refuse(TokenError::ContractPaused)
        } else {
            match self.access.admin {
                None => refuse(TokenError::Admin(AdminError::AdminNotSet)),
                Some(admin) => if recipients.len() == 0 {
                    refuse(TokenError::EmptyRecipients)
                } else if exists|i: int| 0 <= i < recipients.len() && #[trigger] recipients[i].amount <= 0 {
                    refuse(TokenError::InvalidAmount)
                } else {
                    match self.batch_credit(admin, recipients) {
                        Err(e) => refuse(e),
                        Ok((bal, total, events)) => Ok(
                            (
                                TokenView {
                                    balances: bal,
                                    supply: Some((self.supply_value() + total) as i128),
                                    ..self
                                },
                                ReceiptView::new(seq![admin], events),
                            ),
                        ),
                    }
                },
            }
        }
    }

    /// The lockup of an account, empty when absent.
    pub open spec fn lockup_of(self, user: AccountId) -> LockupInfo {
        if self.lockups.contains_key(user) {
            self.lockups[user]
        } else {
            LockupInfo { amount: 0, unlock_time: 0 }
        }
    }

    /// `lock_tokens`: the administrator moves an amount of the user's balance
    /// into its lockup; the unlock time only ever grows.
    pub open spec fn lock_tokens(self, user: AccountId, amount: i128, unlock_time: u64) -> Outcome {
        if self.paused {
            refuse(TokenError::ContractPaused)
        } else {
        match self.access.admin {
            None => refuse(TokenError::Admin(AdminError::AdminNotSet)),
            Some(admin) => {
                let b = self.balance_of(user);
                let l = self.lockup_of(user);
                let new_unlock = if unlock_time > l.unlock_time {
                    unlock_time
                } else {
                    l.unlock_time
                };
                if b < amount {
                    refuse(TokenError::InsufficientBalance)
                } else if !fits(b - amount) || !fits(l.amount + amount) {
                    refuse(TokenError::ArithmeticOverflow)
                } else {
                    Ok(
                        (
                            TokenView {
                                balances: self.balances.insert(user, (b - amount) as i128),
                                lockups: self.lockups.insert(
                                    user,
                                    LockupInfo {
                                        amount: (l.amount + amount) as i128,
                                        unlock_time: new_unlock,
                                    },
                                ),
                                ..self
                            },
                            ReceiptView::new(
                                seq![admin],
                                seq![EventView::Locked { user, amount, unlock_time: new_unlock }],
                            ),
                        ),
                    )
                }
            },
        }
        }
    }

    /// `withdraw_locked`: at or after the unlock time (`now` is the ledger
    /// timestamp), the user's whole lockup returns to its balance.
    pub open spec fn withdraw_locked(self, user: AccountId, now: u64) -> Outcome {
        if self.paused {
            refuse(TokenError::ContractPaused)
        } else if !self.lockups.contains_key(user) {
            refuse(TokenError::NoLockup)
        } else {
            let l = self.lockups[user];
            let b = self.balance_of(user);
            if now < l.unlock_time {
                refuse(TokenError::TokensStillLocked)
            } else if !fits(b + l.amount) {
                refuse(TokenError::ArithmeticOverflow)
            } else {
                Ok(
                    (
                        TokenView {
                            balances: self.balances.insert(user, (b + l.amount) as i128),
                            lockups: self.lockups.remove(user),
                            ..self
                        },
                        ReceiptView::new(
                            seq![user],
                            seq![EventView::WithdrawLocked { user, amount: l.amount }],
                        ),
                    ),
                )
            }
        }
    }

    /// `transfer_ownership`: the administrator hands over at once; both sign.
    pub open spec fn transfer_ownership(self, new_admin: AccountId) -> Outcome {
        match self.access.admin {
            None => refuse(TokenError::Admin(AdminError::AdminNotSet)),
            Some(admin) => Ok(
                (
                    self.with_access(self.access.with_admin(new_admin)),
                    ReceiptView::new(
                        seq![admin, new_admin],
                        seq![EventView::OwnershipTransferred { old_admin: admin, new_admin }],
                    ),
                ),
            ),
        }
    }

    /// `propose_owner`: the administrator names the next administrator.
    pub open spec fn propose_owner(self, new_admin: AccountId) -> Outcome {
        match self.access.admin {
            None => refuse(TokenError::Admin(AdminError::AdminNotSet)),
            Some(admin) => Ok(
                (
                    TokenView { pending_admin: Some(new_admin), ..self },
                    ReceiptView::new(
                        seq![admin],
                        seq![EventView::OwnershipProposed { admin, new_admin }],
                    ),
                ),
            ),
        }
    }

    /// `accept_ownership`: the pending administrator becomes the administrator.
    pub open spec fn accept_ownership(self) -> Outcome {
        match self.pending_admin {
            None => refuse(TokenError::NoPendingAdmin),
            Some(pending) => match self.access.admin {
                None => refuse(TokenError::Admin(AdminError::AdminNotSet)),
                Some(old_admin) => Ok(
                    (
                        TokenView {
                            access: AdminView { admin: Some(pending), ..self.access },
                            pending_admin: None,
                            ..self
                        },
                        ReceiptView::new(
                            seq![pending],
                            seq![EventView::OwnershipAccepted { old_admin, new_admin: pending }],
                        ),
                    ),
                ),
            },
        }
    }

    /// `cancel_transfer`: the administrator withdraws the pending proposal.
    pub open spec fn cancel_transfer(self) -> Outcome {
        match self.access.admin {
            None => refuse(TokenError::Admin(AdminError::AdminNotSet)),
            Some(admin) => match self.pending_admin {
                None => refuse(TokenError::NoPendingAdmin),
                Some(pending) => Ok(
                    (
                        TokenView { pending_admin: None, ..self },
                        ReceiptView::new(
                            seq![admin],
                            seq![EventView::OwnershipCancelled { admin, pending_admin: pending }],
                        ),
                    ),
                ),
            },
        }
    }

    /// `pause` and `unpause`: the administrator sets the paused flag. While it
    /// is set, every token operation is refused (see `laws::refuses_token_operations`).
    pub open spec fn set_paused(self, paused: bool) -> Outcome {
        match self.access.admin {
            None => refuse(TokenError::Admin(AdminError::AdminNotSet)),
            Some(admin) => Ok(
                (
                    TokenView { paused, ..self },
                    ReceiptView::new(
                        seq![admin],
                        seq![
                            if paused {
                                EventView::Paused { admin }
                            } else {
                                EventView::Unpaused { admin }
                            },
                        ],
                    ),
                ),
            ),
        }
    }

    /// `upgrade`: the administrator authorises new contract code.
    pub open spec fn upgrade(self, new_wasm_hash: [u8; 32]) -> Outcome {
        if !self.initialized() {
            refuse(TokenError::NotInitialized)
        } else {
            let admin = self.access.admin.unwrap();
            Ok(
                (
                    self,
                    ReceiptView::new(seq![admin], seq![EventView::Upgrade { admin, new_wasm_hash }]),
                ),
            )
        }
    }

    /// `update_name`: the administrator renames the token.
    pub open spec fn update_name(self, new_name: Seq<char>) -> Outcome {
        if !self.initialized() {
            refuse(TokenError::NotInitialized)
        } else {
            let admin = self.access.admin.unwrap();
            let old_name = match self.name {
                Some(n) => n,
                None => "bc-forge"@,
            };
            Ok(
                (
                    TokenView { name: Some(new_name), ..self },
                    ReceiptView::new(
                        seq![admin],
                        seq![EventView::UpdateName { admin, old_name, new_name }],
                    ),
                ),
            )
        }
    }

    /// `update_symbol`: the administrator changes the ticker.
    pub open spec fn update_symbol(self, new_symbol: Seq<char>) -> Outcome {
        if !self.initialized() {
            refuse(TokenError::NotInitialized)
        } else {
            let admin = self.access.admin.unwrap();
            let old_symbol = match self.symbol {
                Some(n) => n,
                None => "SFG"@,
            };
            Ok(
                (
                    TokenView { symbol: Some(new_symbol), ..self },
                    ReceiptView::new(
                        seq![admin],
                        seq![EventView::UpdateSymbol { admin, old_symbol, new_symbol }],
                    ),
                ),
            )
        }
    }

    /// `approve`: unless paused, the owner sets a non-negative allowance for a spender.
    pub open spec fn approve(
        self,
        from: AccountId,
        spender: AccountId,
        amount: i128,
        exp_ledger: u32,
    ) -> Outcome {
        if self.paused {
            refuse(TokenError::ContractPaused)
        } else if !self.initialized() {
            refuse(TokenError::NotInitialized)
        } else if amount < 0 {
            refuse(TokenError::InvalidAmount)
        } else {
            Ok(
                (
                    self.with_allowance(from, spender, amount, exp_ledger),
                    ReceiptView::new(seq![from], seq![EventView::Approve { from, spender, amount }]),
                ),
            )
        }
    }

    /// The checks shared by the operations that spend: not paused, initialized,
    /// a positive amount.
    pub open spec fn spend_refusal(self, amount: i128) -> Option<TokenError> {
        if self.paused {
            Some(TokenError::ContractPaused)
        } else if !self.initialized() {
            Some(TokenError::NotInitialized)
        } else if amount <= 0 {
            Some(TokenError::InvalidAmount)
        } else {
            None
        }
    }

    /// `transfer`: the owner moves a positive amount.
    pub open spec fn transfer(self, from: AccountId, to: AccountId, amount: i128) -> Outcome {
        match self.spend_refusal(amount) {
            Some(e) => refuse(e),
            None => match self.move_balance(from, to, amount) {
                Err(e) => refuse(e),
                Ok(t) => Ok(
                    (t, ReceiptView::new(seq![from], seq![EventView::Transfer { from, to, amount }])),
                ),
            },
        }
    }

    /// `transfer_from`: the spender moves a positive amount within its live
    /// allowance, which shrinks by the amount and keeps its expiration.
    pub open spec fn transfer_from(
        self,
        spender: AccountId,
        from: AccountId,
        to: AccountId,
        amount: i128,
        ledger: u32,
    ) -> Outcome {
        match self.spend_refusal(amount) {
            Some(e) => refuse(e),
            None => {
                let allowance = self.live_allowance(from, spender, ledger);
                if allowance < amount {
                    refuse(TokenError::InsufficientAllowance)
                } else {
                    match self.move_balance(from, to, amount) {
                        Err(e) => refuse(e),
                        Ok(t) => {
                            let remaining = (allowance - amount) as i128;
                            Ok(
                                (
                                    t.with_allowance(
                                        from,
                                        spender,
                                        remaining,
                                        self.allowance_info(from, spender).exp_ledger,
                                    ),
                                    ReceiptView::new(
                                        seq![spender],
                                        seq![
                                            EventView::TransferFrom {
                                                spender,
                                                from,
                                                to,
                                                amount,
                                                remaining,
                                            },
                                        ],
                                    ),
                                ),
                            )
                        },
                    }
                }
            },
        }
    }

    /// `burn`: the owner destroys a positive amount of its balance.
    pub open spec fn burn(self, from: AccountId, amount: i128) -> Outcome {
        match self.spend_refusal(amount) {
            Some(e) => refuse(e),
            None => {
                let b = self.balance_of(from);
                let s = self.supply_value() - amount;
                if b < amount {
                    refuse(TokenError::InsufficientBalance)
                } else if !fits(s) {
                    refuse(TokenError::ArithmeticOverflow)
                } else {
                    Ok(
                        (
                            self.with_balance(from, (b - amount) as i128).with_supply(s as i128),
                            ReceiptView::new(
                                seq![from],
                                seq![
                                    EventView::Burn {
                                        from,
                                        amount,
                                        balance: (b - amount) as i128,
                                        supply: s as i128,
                                    },
                                ],
                            ),
                        ),
                    )
                }
            },
        }
    }

    /// `burn_from`: the spender destroys a positive amount of the owner's
    /// balance within its live allowance.
    pub open spec fn burn_from(self, spender: AccountId, from: AccountId, amount: i128, ledger: u32) -> Outcome {
        match self.spend_refusal(amount) {
            Some(e) => refuse(e),
            None => {
                let allowance = self.live_allowance(from, spender, ledger);
                let b = self.balance_of(from);
                let s = self.supply_value() - amount;
                if allowance < amount {
                    refuse(TokenError::InsufficientAllowance)
                } else if b < amount {
                    refuse(TokenError::InsufficientBalance)
                } else if !fits(s) {
                    refuse(TokenError::ArithmeticOverflow)
                } else {
                    Ok(
                        (
                            self.with_allowance(
                                from,
                                spender,
                                (allowance - amount) as i128,
                                self.allowance_info(from, spender).exp_ledger,
                            ).with_balance(from, (b - amount) as i128).with_supply(s as i128),
                            ReceiptView::new(
                                seq![spender],
                                seq![
                                    EventView::Burn {
                                        from,
                                        amount,
                                        balance: (b - amount) as i128,
                                        supply: s as i128,
                                    },
                                ],
                            ),
                        ),
                    )
                }
            },
        }
    }

    /// Whether the payer is exempt from fees of the given operation type.
    pub open spec fn fee_exempt(self, payer: AccountId, operation_type: u8) -> bool {
        self.fee_exemptions.contains_key(payer) && (self.fee_exemptions[payer].exemption_type == 0
            || self.fee_exemptions[payer].exemption_type == operation_type)
    }

    /// The fee of an operation: base fee plus complexity times the multiplier,
    /// capped at the maximum fee; zero when fees are not configured or disabled.
    pub open spec fn fee(self, complexity: u32) -> Result<i128, TokenError> {
        match self.fee_config {
            None => Ok(0),
            Some(c) => if !c.enabled {
                Ok(0)
            } else {
                let total = c.base_fee + complexity * c.complexity_multiplier;
                if !fits(total) {
                    Err(TokenError::ArithmeticOverflow)
                } else if total > c.max_fee {
                    Ok(c.max_fee)
                } else {
                    Ok(total as i128)
                }
            },
        }
    }

    /// Charges the fee of an operation to the payer, for the treasury.
    pub open spec fn charge_fee(self, payer: AccountId, operation_type: u8, complexity: u32) -> Outcome {
        if self.fee_exempt(payer, operation_type) {
            Ok((self, ReceiptView::new(Seq::empty(), Seq::empty())))
        } else {
            match self.fee(complexity) {
                Err(e) => refuse(e),
                Ok(fee) => if fee == 0 {
                    Ok((self, ReceiptView::new(Seq::empty(), Seq::empty())))
                } else {
                    match self.treasury {
                        None => refuse(TokenError::FeeNotConfigured),
                        Some(treasury) => if self.balance_of(payer) < fee {
                            refuse(TokenError::InsufficientFeeBalance)
                        } else {
                            match self.move_balance(payer, treasury, fee) {
                                Err(e) => refuse(e),
                                Ok(t) => Ok(
                                    (
                                        t,
                                        ReceiptView::new(
                                            Seq::empty(),
                                            seq![EventView::FeeCharged { payer, treasury, amount: fee }],
                                        ),
                                    ),
                                ),
                            }
                        },
                    }
                },
            }
        }
    }
}

} // verus!
