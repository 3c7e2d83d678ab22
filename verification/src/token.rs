//! The token contract: its state and one method per entry point, each proved to
//! give the outcome that the model in `model.rs` prescribes.

use std::collections::HashMap;
use vstd::prelude::*;
use crate::admin::{AccessSnapshot, AdminState};
use crate::error::{AdminError, TokenError};
use crate::events::{optional_account, two_accounts, Event, EventView, Receipt};
use crate::model::{fits, Outcome, TokenView};
use crate::snapshot::{export_map, import_map, pairs_to_map};
use crate::types::{
    AccountId,
    AllowanceInfo,
    FeeConfig,
    FeeExemption,
    LockupInfo,
    Recipient,
    Role,
    TokenAction,
};

verus! {

broadcast use vstd::std_specs::hash::group_hash_axioms, vstd::string::group_string_axioms;

/// The key under which the allowance of (`owner`, `spender`) is stored.
pub open spec fn pair_key(owner: AccountId, spender: AccountId) -> u128 {
    (owner as int * 0x1_0000_0000_0000_0000 + spender as int) as u128
}

/// Distinct pairs are stored under distinct keys.
pub proof fn lemma_pair_key_injective(a: AccountId, b: AccountId, c: AccountId, d: AccountId)
    ensures
        pair_key(a, b) == pair_key(c, d) ==> a == c && b == d,
{
    assert(0 <= a as int * 0x1_0000_0000_0000_0000 + b as int <= u128::MAX) by (nonlinear_arith);
    assert(0 <= c as int * 0x1_0000_0000_0000_0000 + d as int <= u128::MAX) by (nonlinear_arith);
    assert(a as int * 0x1_0000_0000_0000_0000 + b as int == c as int * 0x1_0000_0000_0000_0000
        + d as int ==> a == c && b == d) by (nonlinear_arith);
}

/// The owner and spender whose allowance is stored under a key.
pub open spec fn pair_of_key(k: u128) -> (AccountId, AccountId) {
    ((k / 0x1_0000_0000_0000_0000) as u64, (k % 0x1_0000_0000_0000_0000) as u64)
}

/// A key gives back the pair it was made from.
pub proof fn lemma_pair_of_key(a: AccountId, b: AccountId)
    ensures
        pair_of_key(pair_key(a, b)) == (a, b),
{
    let k = a as int * 0x1_0000_0000_0000_0000 + b as int;
    assert(0 <= k <= u128::MAX) by (nonlinear_arith)
        requires
            k == a as int * 0x1_0000_0000_0000_0000 + b as int,
            0 <= a <= u64::MAX,
            0 <= b <= u64::MAX,
    ;
    assert(k / 0x1_0000_0000_0000_0000 == a as int && k % 0x1_0000_0000_0000_0000 == b as int)
        by (nonlinear_arith)
        requires
            k == a as int * 0x1_0000_0000_0000_0000 + b as int,
            0 <= a <= u64::MAX,
            0 <= b <= u64::MAX,
    ;
}

fn make_pair_key(owner: AccountId, spender: AccountId) -> (k: u128)
    ensures
        k == pair_key(owner, spender),
{
    assert(0 <= owner as int * 0x1_0000_0000_0000_0000 + spender as int <= u128::MAX)
        by (nonlinear_arith);
    (owner as u128) * 0x1_0000_0000_0000_0000u128 + (spender as u128)
}

/// How a call that returns a receipt realizes the outcome that the model
/// prescribes: a refused call changes nothing.
pub open spec fn realizes(
    r: Result<Receipt, TokenError>,
    pre: TokenView,
    post: TokenView,
    o: Outcome,
) -> bool {
    match o {
        Ok((t, rc)) => match r {
            Ok(x) => x@ == rc && post == t,
            Err(_) => false,
        },
        Err(e) => r == Err::<Receipt, TokenError>(e) && post == pre,
    }
}

/// The whole contract state as plain, storable values.
pub struct TokenSnapshot {
    pub access: AccessSnapshot,
    pub paused: bool,
    pub decimals: Option<u32>,
    pub name: Option<String>,
    pub symbol: Option<String>,
    pub supply: Option<i128>,
    pub balances: Vec<(AccountId, i128)>,
    /// Allowances, each under the key `pair_key(owner, spender)`.
    pub allowances: Vec<(u128, AllowanceInfo)>,
    pub pending_admin: Option<AccountId>,
    pub clawback_admin: Option<AccountId>,
    pub lockups: Vec<(AccountId, LockupInfo)>,
    pub proposal_actions: Vec<(u64, TokenAction)>,
    pub treasury: Option<AccountId>,
    pub fee_config: Option<FeeConfig>,
    pub fee_exemptions: Vec<(AccountId, FeeExemption)>,
}

impl View for TokenSnapshot {
    type V = TokenView;

    open spec fn view(&self) -> TokenView {
        TokenView {
            access: self.access@,
            paused: self.paused,
            decimals: self.decimals,
            name: match self.name {
                Some(s) => Some(s@),
                None => None,
            },
            symbol: match self.symbol {
                Some(s) => Some(s@),
                None => None,
            },
            supply: self.supply,
            balances: pairs_to_map(self.balances@),
            allowances: Map::new(
                |p: (AccountId, AccountId)| pairs_to_map(self.allowances@).contains_key(pair_key(p.0, p.1)),
                |p: (AccountId, AccountId)| pairs_to_map(self.allowances@)[pair_key(p.0, p.1)],
            ),
            pending_admin: self.pending_admin,
            clawback_admin: self.clawback_admin,
            lockups: pairs_to_map(self.lockups@),
            proposal_actions: pairs_to_map(self.proposal_actions@),
            treasury: self.treasury,
            fee_config: self.fee_config,
            fee_exemptions: pairs_to_map(self.fee_exemptions@),
        }
    }
}

fn copy_text(s: &Option<String>) -> (r: Option<String>)
    ensures
        match (*s, r) {
            (Some(a), Some(b)) => a@ == b@,
            (None, None) => true,
            _ => false,
        },
{
    match s {
        Some(t) => Some(t.clone()),
        None => None,
    }
}

/// The state of a token contract.
pub struct BcForgeToken {
    access: AdminState,
    paused: bool,
    decimals: Option<u32>,
    name: Option<String>,
    symbol: Option<String>,
    supply: Option<i128>,
    balances: HashMap<AccountId, i128>,
    allowances: HashMap<u128, AllowanceInfo>,
    pending_admin: Option<AccountId>,
    clawback_admin: Option<AccountId>,
    lockups: HashMap<AccountId, LockupInfo>,
    proposal_actions: HashMap<u64, TokenAction>,
    treasury: Option<AccountId>,
    fee_config: Option<FeeConfig>,
    fee_exemptions: HashMap<AccountId, FeeExemption>,
}

impl View for BcForgeToken {
    type V = TokenView;

    closed spec fn view(&self) -> TokenView {
        TokenView {
            access: self.access@,
            paused: self.paused,
            decimals: self.decimals,
            name: match self.name {
                Some(s) => Some(s@),
                None => None,
            },
            symbol: match self.symbol {
                Some(s) => Some(s@),
                None => None,
            },
            supply: self.supply,
            balances: self.balances@,
            allowances: Map::new(
                |p: (AccountId, AccountId)| self.allowances@.contains_key(pair_key(p.0, p.1)),
                |p: (AccountId, AccountId)| self.allowances@[pair_key(p.0, p.1)],
            ),
            pending_admin: self.pending_admin,
            clawback_admin: self.clawback_admin,
            lockups: self.lockups@,
            proposal_actions: self.proposal_actions@,
            treasury: self.treasury,
            fee_config: self.fee_config,
            fee_exemptions: self.fee_exemptions@,
        }
    }
}

impl BcForgeToken {
    /// A freshly deployed, uninitialized contract.
    pub fn new() -> (r: BcForgeToken)
        ensures
            r@ == TokenView::initial(),
    {
        let r = BcForgeToken {
            access: AdminState::new(),
            paused: false,
            decimals: None,
            name: None,
            symbol: None,
            supply: None,
            balances: HashMap::new(),
            allowances: HashMap::new(),
            pending_admin: None,
            clawback_admin: None,
            lockups: HashMap::new(),
            proposal_actions: HashMap::new(),
            treasury: None,
            fee_config: None,
            fee_exemptions: HashMap::new(),
        };
        assert(r@.allowances =~= Map::empty());
        assert(r@.balances =~= Map::empty());
        assert(r@.lockups =~= Map::empty());
        assert(r@.proposal_actions =~= Map::empty());
        assert(r@.fee_exemptions =~= Map::empty());
        r
    }

    /// The access-control state.
    pub fn access_state(&self) -> (r: &AdminState)
        ensures
            r@ == self@.access,
    {
        &self.access
    }

    fn ensure_initialized(&self) -> (r: Result<(), TokenError>)
        ensures
            r == (if self@.initialized() {
                Ok(())
            } else {
                Err(TokenError::NotInitialized)
            }),
    {
        if !self.access.has_admin() {
            return Err(TokenError::NotInitialized);
        }
        Ok(())
    }

    fn ensure_not_paused(&self) -> (r: Result<(), TokenError>)
        ensures
            r == (if self@.paused {
                Err(TokenError::ContractPaused)
            } else {
                Ok(())
            }),
    {
        if self.paused {
            return Err(TokenError::ContractPaused);
        }
        Ok(())
    }

    fn read_balance(&self, id: AccountId) -> (r: i128)
        ensures
            r == self@.balance_of(id),
    {
        match self.balances.get(&id) {
            Some(b) => *b,
            None => 0,
        }
    }

    fn write_balance(&mut self, id: AccountId, balance: i128)
        ensures
            final(self)@ == old(self)@.with_balance(id, balance),
    {
        self.balances.insert(id, balance);
    }

    fn read_allowance_info(&self, from: AccountId, spender: AccountId) -> (r: AllowanceInfo)
        ensures
            r == self@.allowance_info(from, spender),
    {
        let k = make_pair_key(from, spender);
        match self.allowances.get(&k) {
            Some(i) => *i,
            None => AllowanceInfo { amount: 0, exp_ledger: 0 },
        }
    }

    fn read_allowance(&self, from: AccountId, spender: AccountId, ledger: u32) -> (r: i128)
        ensures
            r == self@.live_allowance(from, spender, ledger),
    {
        let info = self.read_allowance_info(from, spender);
        if info.exp_ledger > 0 {
            if ledger > info.exp_ledger {
                return 0;
            }
        }
        info.amount
    }

    fn write_allowance(&mut self, from: AccountId, spender: AccountId, amount: i128, exp: u32)
        ensures
            final(self)@ == old(self)@.with_allowance(from, spender, amount, exp),
    {
        let ghost pre = self@;
        let k = make_pair_key(from, spender);
        self.allowances.insert(k, AllowanceInfo { amount, exp_ledger: exp });
        proof {
            assert forall|p: (AccountId, AccountId)| p != (from, spender) implies pair_key(p.0, p.1)
                != k by {
                lemma_pair_key_injective(p.0, p.1, from, spender);
            }
            assert(self@.allowances =~= pre.allowances.insert(
                (from, spender),
                AllowanceInfo { amount, exp_ledger: exp },
            ));
        }
    }

    /// Moves `amount` from `from` to `to` and returns the new balances of both.
    fn move_balance(&mut self, from: AccountId, to: AccountId, amount: i128) -> (r: Result<
        (i128, i128),
        TokenError,
    >)
        ensures
            match old(self)@.move_balance(from, to, amount) {
                Ok(t) => r == Ok::<(i128, i128), TokenError>((t.balance_of(from), t.balance_of(to)))
                    && final(self)@ == t,
                Err(e) => r == Err::<(i128, i128), TokenError>(e) && final(self)@ == old(self)@,
            },
    {
        let from_balance = self.read_balance(from);
        if from_balance < amount {
            return Err(TokenError::InsufficientBalance);
        }
        if from == to {
            return Ok((from_balance, from_balance));
        }
        let new_from = match from_balance.checked_sub(amount) {
            Some(v) => v,
            None => {
                return Err(TokenError::ArithmeticOverflow);
            },
        };
        let new_to = match self.read_balance(to).checked_add(amount) {
            Some(v) => v,
            None => {
                return Err(TokenError::ArithmeticOverflow);
            },
        };
        self.write_balance(from, new_from);
        self.write_balance(to, new_to);
        Ok((new_from, new_to))
    }

    fn read_supply(&self) -> (r: i128)
        ensures
            r == self@.supply_value(),
    {
        match self.supply {
            Some(s) => s,
            None => 0,
        }
    }

    fn write_supply(&mut self, supply: i128)
        ensures
            final(self)@ == old(self)@.with_supply(supply),
    {
        self.supply = Some(supply);
    }

    fn read_admin(&self) -> (r: Result<AccountId, TokenError>)
        ensures
            r == (match self@.access.admin {
                Some(a) => Ok(a),
                None => Err(TokenError::Admin(AdminError::AdminNotSet)),
            }),
    {
        match self.access.get_admin() {
            Ok(a) => Ok(a),
            Err(e) => Err(TokenError::Admin(e)),
        }
    }

    fn internal_mint(&mut self, to: AccountId, amount: i128) -> (r: Result<Event, TokenError>)
        ensures
            match old(self)@.mint_to(to, amount) {
                Ok((t, ev)) => match r {
                    Ok(x) => x@ == ev && final(self)@ == t,
                    Err(_) => false,
                },
                Err(e) => r == Err::<Event, TokenError>(e) && final(self)@ == old(self)@,
            },
    {
        if amount <= 0 {
            return Err(TokenError::InvalidAmount);
        }
        let balance = match self.read_balance(to).checked_add(amount) {
            Some(v) => v,
            None => {
                return Err(TokenError::ArithmeticOverflow);
            },
        };
        let supply = match self.read_supply().checked_add(amount) {
            Some(v) => v,
            None => {
                return Err(TokenError::ArithmeticOverflow);
            },
        };
        let admin = self.read_admin()?;
        self.write_balance(to, balance);
        self.write_supply(supply);
        Ok(Event::Mint { admin, to, amount, balance, supply })
    }

    fn read_pending_admin(&self) -> (r: Option<AccountId>)
        ensures
            r == self@.pending_admin,
    {
        self.pending_admin
    }

    /// Initializes the token with an administrator and metadata, once; the
    /// administrator must sign.
    pub fn initialize(&mut self, admin: AccountId, decimal: u32, name: String, symbol: String) -> (r:
        Result<Receipt, TokenError>)
        ensures
            realizes(r, old(self)@, final(self)@, old(self)@.initialize(admin, decimal, name@, symbol@)),
    {
        if self.access.has_admin() {
            return Err(TokenError::AlreadyInitialized);
        }
        let signer = self.access.set_admin(admin);
        self.decimals = Some(decimal);
        let ev = Event::Initialized { admin, decimal, name: name.clone(), symbol: symbol.clone() };
        self.name = Some(name);
        self.symbol = Some(symbol);
        self.write_supply(0);
        Ok(Receipt::signed_event(signer, ev))
    }

    /// Mints a positive amount to `to`; the administrator must sign.
    pub fn mint(&mut self, to: AccountId, amount: i128) -> (r: Result<Receipt, TokenError>)
        ensures
            realizes(r, old(self)@, final(self)@, old(self)@.mint(to, amount)),
    {
        self.ensure_not_paused()?;
        let admin = self.read_admin()?;
        let ev = self.internal_mint(to, amount)?;
        Ok(Receipt::signed_event(admin, ev))
    }

    /// Configures the multi-signature admin pool.
    pub fn set_admin_pool(&mut self, pool: Vec<AccountId>, threshold: u32) -> (r: Result<
        Receipt,
        TokenError,
    >)
        ensures
            realizes(r, old(self)@, final(self)@, old(self)@.set_admin_pool(pool@, threshold)),
    {
        let admin = self.read_admin()?;
        match self.access.set_admin_pool(pool, threshold) {
            Ok(_) => {},
            Err(e) => {
                return Err(TokenError::Admin(e));
            },
        }
        Ok(Receipt::signers_only(two_accounts(admin, admin)))
    }

    /// Creates a proposal for a multi-sig token action and returns its identifier.
    pub fn propose_action(&mut self, admin: AccountId, action: TokenAction, description: String) -> (r:
        Result<(u64, Receipt), TokenError>)
        ensures
            match old(self)@.propose_action(admin, action, description@) {
                Ok((t, rc)) => match r {
                    Ok((id, x)) => id == old(self)@.access.next_proposal_id && x@ == rc && final(self)@
                        == t,
                    Err(_) => false,
                },
                Err(e) => r == Err::<(u64, Receipt), TokenError>(e) && final(self)@ == old(self)@,
            },
    {
        let critical = action.critical_action();
        let id = match self.access.create_proposal(admin, critical, description) {
            Ok(id) => id,
            Err(e) => {
                return Err(TokenError::Admin(e));
            },
        };
        self.proposal_actions.insert(id, action);
        Ok((id, Receipt::signed(admin)))
    }

    /// Approves an existing proposal; the approving admin must sign.
    pub fn approve_proposal(&mut self, admin: AccountId, proposal_id: u64) -> (r: Result<
        Receipt,
        TokenError,
    >)
        ensures
            realizes(r, old(self)@, final(self)@, old(self)@.approve_proposal(admin, proposal_id)),
    {
        match self.access.approve_proposal(admin, proposal_id) {
            Ok(()) => {},
            Err(e) => {
                return Err(TokenError::Admin(e));
            },
        }
        Ok(Receipt::signed(admin))
    }

    /// Executes a proposal once quorum is reached, performing its token action.
    pub fn execute_proposal(&mut self, proposal_id: u64) -> (r: Result<Receipt, TokenError>)
        ensures
            realizes(r, old(self)@, final(self)@, old(self)@.execute_proposal(proposal_id)),
    {
        let proposal = match self.access.get_proposal(proposal_id) {
            Ok(p) => p,
            Err(e) => {
                return Err(TokenError::Admin(e));
            },
        };
        if proposal.executed {
            return Err(TokenError::Admin(AdminError::AlreadyExecuted));
        }
        match self.access.is_proposal_ready(proposal_id) {
            Ok(true) => {},
            Ok(false) => {
                return Err(TokenError::Admin(AdminError::ThresholdNotMet));
            },
            Err(e) => {
                return Err(TokenError::Admin(e));
            },
        }
        let action = match self.proposal_actions.get(&proposal_id) {
            Some(a) => *a,
            None => {
                return Err(TokenError::ProposalActionNotFound);
            },
        };
        let ghost pre = self@;
        match action {
            TokenAction::Mint(to, amount) => {
                self.ensure_not_paused()?;
                if amount <= 0 {
                    return Err(TokenError::InvalidAmount);
                }
                match self.read_balance(to).checked_add(amount) {
                    Some(_) => {},
                    None => {
                        return Err(TokenError::ArithmeticOverflow);
                    },
                }
                match self.read_supply().checked_add(amount) {
                    Some(_) => {},
                    None => {
                        return Err(TokenError::ArithmeticOverflow);
                    },
                }
                self.read_admin()?;
                let marked = self.access.mark_executed(proposal_id);
                assert(marked is Ok);
                self.proposal_actions.remove(&proposal_id);
                let ghost mid = self@;
                assert(mid == (TokenView {
                    access: pre.access.with_executed(proposal_id),
                    proposal_actions: pre.proposal_actions.remove(proposal_id),
                    ..pre
                }));
                let minted = self.internal_mint(to, amount);
                match minted {
                    Ok(ev) => Ok(Receipt::event_only(ev)),
                    Err(e) => Err(e),
                }
            },
            TokenAction::Pause => {
                let admin = self.read_admin()?;
                let marked = self.access.mark_executed(proposal_id);
                assert(marked is Ok);
                self.proposal_actions.remove(&proposal_id);
                self.paused = true;
                Ok(Receipt::signed_event(admin, Event::Paused { admin }))
            },
            TokenAction::Unpause => {
                let admin = self.read_admin()?;
                let marked = self.access.mark_executed(proposal_id);
                assert(marked is Ok);
                self.proposal_actions.remove(&proposal_id);
                self.paused = false;
                Ok(Receipt::signed_event(admin, Event::Unpaused { admin }))
            },
        }
    }

    /// Designates the clawback administrator; the administrator must sign.
    pub fn set_clawback_admin(&mut self, admin: AccountId) -> (r: Result<Receipt, TokenError>)
        ensures
            realizes(r, old(self)@, final(self)@, old(self)@.set_clawback_admin(admin)),
    {
        let a = self.read_admin()?;
        self.clawback_admin = Some(admin);
        Ok(Receipt::signed(a))
    }

    /// Moves a positive amount from `from` to `to`; the clawback administrator must sign.
    pub fn clawback(&mut self, from: AccountId, to: AccountId, amount: i128) -> (r: Result<
        Receipt,
        TokenError,
    >)
        ensures
            realizes(r, old(self)@, final(self)@, old(self)@.clawback(from, to, amount)),
    {
        self.ensure_not_paused()?;
        let claw = match self.clawback_admin {
            Some(c) => c,
            None => {
                return Err(TokenError::ClawbackAdminNotSet);
            },
        };
        if amount <= 0 {
            return Err(TokenError::InvalidAmount);
        }
        self.move_balance(from, to, amount)?;
        Ok(Receipt::signed_event(claw, Event::Clawback { admin: claw, from, to, amount }))
    }

    /// Grants a role to an address; once an administrator is set, it must sign.
    pub fn grant_role(&mut self, role: Role, address: AccountId) -> (r: Receipt)
        ensures
            match old(self)@.grant_role(role, address) {
                Ok((t, rc)) => r@ == rc && final(self)@ == t,
                Err(_) => false,
            },
    {
        let signer = self.access.grant_role(role, address);
        Receipt::signers_only(optional_account(signer))
    }

    /// Revokes a role from an address; the administrator must sign.
    pub fn revoke_role(&mut self, role: Role, address: AccountId) -> (r: Result<Receipt, TokenError>)
        ensures
            realizes(r, old(self)@, final(self)@, old(self)@.revoke_role(role, address)),
    {
        match self.access.revoke_role(role, address) {
            Ok(a) => Ok(Receipt::signed(a)),
            Err(e) => Err(TokenError::Admin(e)),
        }
    }

    /// Whether an address holds a role, directly or through the Admin role.
    pub fn has_role(&self, role: Role, address: AccountId) -> (r: bool)
        ensures
            r == self@.access.has_role(role, address),
    {
        self.access.has_role(role, address)
    }

    /// Mints to every recipient in order, all or nothing; the administrator must
    /// sign and one mint event is reported per recipient.
    pub fn batch_mint(&mut self, recipients: Vec<Recipient>) -> (r: Result<Receipt, TokenError>)
        ensures
            realizes(r, old(self)@, final(self)@, old(self)@.batch_mint(recipients@)),
    {
        self.ensure_not_paused()?;
        let admin = self.read_admin()?;
        if recipients.len() == 0 {
            return Err(TokenError::EmptyRecipients);
        }
        let mut i: usize = 0;
        while i < recipients.len()
            invariant
                i <= recipients.len(),
                recipients@.len() > 0,
                !self@.paused,
                self@.access.admin == Some(admin),
                forall|j: int| 0 <= j < i ==> #[trigger] recipients@[j].amount > 0,
            decreases recipients.len() - i,
        {
            if recipients[i].amount <= 0 {
                assert(recipients@[i as int].amount <= 0);
                return Err(TokenError::InvalidAmount);
            }
            i = i + 1;
        }
        let ghost pre = self@;
        let mut balances = self.balances.clone();
        let supply0 = self.read_supply();
        let mut total: i128 = 0;
        let mut events: Vec<Event> = Vec::new();
        let mut i: usize = 0;
        proof {
            assert(recipients@.subrange(0, 0) =~= Seq::<Recipient>::empty());
            assert(events@.map_values(|e: Event| e@) =~= Seq::<EventView>::empty());
        }
        while i < recipients.len()
            invariant
                i <= recipients.len(),
                self@ == pre,
                !pre.paused,
                pre.access.admin == Some(admin),
                recipients@.len() > 0,
                forall|j: int| 0 <= j < recipients@.len() ==> #[trigger] recipients@[j].amount > 0,
                supply0 == pre.supply_value(),
                fits(supply0 + total),
                pre.batch_credit(admin, recipients@.subrange(0, i as int)) == Ok::<
                    (Map<AccountId, i128>, int, Seq<EventView>),
                    TokenError,
                >((balances@, total as int, events@.map_values(|e: Event| e@))),
            decreases recipients.len() - i,
        {
            let rec = recipients[i];
            proof {
                assert(recipients@.subrange(0, i + 1).drop_last() =~= recipients@.subrange(0, i as int));
                assert(recipients@.subrange(0, i + 1).last() == rec);
            }
            let cur = match balances.get(&rec.address) {
                Some(b) => *b,
                None => 0,
            };
            let nb = match cur.checked_add(rec.amount) {
                Some(v) => v,
                None => {
                    proof {
                        Self::lemma_batch_credit_prefix_err(pre, admin, recipients@, i as int + 1);
                    }
                    return Err(TokenError::ArithmeticOverflow);
                },
            };
            let nt = match total.checked_add(rec.amount) {
                Some(v) => v,
                None => {
                    proof {
                        Self::lemma_batch_credit_prefix_err(pre, admin, recipients@, i as int + 1);
                    }
                    return Err(TokenError::ArithmeticOverflow);
                },
            };
            let ns = match supply0.checked_add(nt) {
                Some(v) => v,
                None => {
                    proof {
                        Self::lemma_batch_credit_prefix_err(pre, admin, recipients@, i as int + 1);
                    }
                    return Err(TokenError::ArithmeticOverflow);
                },
            };
            let ghost old_events = events@.map_values(|e: Event| e@);
            balances.insert(rec.address, nb);
            total = nt;
            let ev = Event::Mint { admin, to: rec.address, amount: rec.amount, balance: nb, supply: ns };
            let ghost evv = ev@;
            events.push(ev);
            proof {
                assert(events@.map_values(|e: Event| e@) =~= old_events.push(evv));
            }
            i = i + 1;
        }
        proof {
            assert(recipients@.subrange(0, recipients@.len() as int) =~= recipients@);
            assert(!(exists|j: int| 0 <= j < recipients@.len() && #[trigger] recipients@[j].amount <= 0));
        }
        self.balances = balances;
        let new_supply = supply0 + total;
        self.write_supply(new_supply);
        Ok(Receipt::signers_event_list(admin, events))
    }

    proof fn lemma_batch_credit_prefix_err(s: TokenView, admin: AccountId, recs: Seq<Recipient>, i: int)
        requires
            0 <= i <= recs.len(),
            s.batch_credit(admin, recs.subrange(0, i)) is Err,
        ensures
            s.batch_credit(admin, recs) == s.batch_credit(admin, recs.subrange(0, i)),
        decreases recs.len() - i,
    {
        if i == recs.len() {
            assert(recs.subrange(0, i) =~= recs);
        } else {
            assert(recs.subrange(0, i + 1).drop_last() =~= recs.subrange(0, i));
            Self::lemma_batch_credit_prefix_err(s, admin, recs, i + 1);
        }
    }

    /// Moves an amount of the user's balance into its lockup, keeping the later
    /// unlock time; the administrator must sign.
    pub fn lock_tokens(&mut self, user: AccountId, amount: i128, unlock_time: u64) -> (r: Result<
        Receipt,
        TokenError,
    >)
        ensures
            realizes(r, old(self)@, final(self)@, old(self)@.lock_tokens(user, amount, unlock_time)),
    {
        self.ensure_not_paused()?;
        let admin = self.read_admin()?;
        let balance = self.read_balance(user);
        if balance < amount {
            return Err(TokenError::InsufficientBalance);
        }
        let new_balance = match balance.checked_sub(amount) {
            Some(v) => v,
            None => {
                return Err(TokenError::ArithmeticOverflow);
            },
        };
        let lockup = match self.lockups.get(&user) {
            Some(l) => *l,
            None => LockupInfo { amount: 0, unlock_time: 0 },
        };
        let new_amount = match lockup.amount.checked_add(amount) {
            Some(v) => v,
            None => {
                return Err(TokenError::ArithmeticOverflow);
            },
        };
        let new_unlock = if unlock_time > lockup.unlock_time {
            unlock_time
        } else {
            lockup.unlock_time
        };
        self.write_balance(user, new_balance);
        self.lockups.insert(user, LockupInfo { amount: new_amount, unlock_time: new_unlock });
        Ok(Receipt::signed_event(admin, Event::Locked { user, amount, unlock_time: new_unlock }))
    }

    /// Returns the user's whole lockup to its balance once `now` (the ledger
    /// timestamp) has reached the unlock time; the user must sign.
    pub fn withdraw_locked(&mut self, user: AccountId, now: u64) -> (r: Result<Receipt, TokenError>)
        ensures
            realizes(r, old(self)@, final(self)@, old(self)@.withdraw_locked(user, now)),
    {
        self.ensure_not_paused()?;
        let lockup = match self.lockups.get(&user) {
            Some(l) => *l,
            None => {
                return Err(TokenError::NoLockup);
            },
        };
        if now < lockup.unlock_time {
            return Err(TokenError::TokensStillLocked);
        }
        let new_balance = match self.read_balance(user).checked_add(lockup.amount) {
            Some(v) => v,
            None => {
                return Err(TokenError::ArithmeticOverflow);
            },
        };
        self.write_balance(user, new_balance);
        self.lockups.remove(&user);
        Ok(Receipt::signed_event(user, Event::WithdrawLocked { user, amount: lockup.amount }))
    }

    /// Transfers the administrator role at once; the current and the new
    /// administrator must both sign.
    pub fn transfer_ownership(&mut self, new_admin: AccountId) -> (r: Result<Receipt, TokenError>)
        ensures
            realizes(r, old(self)@, final(self)@, old(self)@.transfer_ownership(new_admin)),
    {
        let admin = self.read_admin()?;
        let second = self.access.set_admin(new_admin);
        Ok(
            Receipt::signers_event(
                two_accounts(admin, second),
                Event::OwnershipTransferred { old_admin: admin, new_admin },
            ),
        )
    }

    /// Proposes a new administrator for a two-step transfer; the administrator must sign.
    pub fn propose_owner(&mut self, new_admin: AccountId) -> (r: Result<Receipt, TokenError>)
        ensures
            realizes(r, old(self)@, final(self)@, old(self)@.propose_owner(new_admin)),
    {
        let admin = self.read_admin()?;
        self.pending_admin = Some(new_admin);
        Ok(Receipt::signed_event(admin, Event::OwnershipProposed { admin, new_admin }))
    }

    /// The pending administrator accepts and becomes the administrator; it must sign.
    pub fn accept_ownership(&mut self) -> (r: Result<Receipt, TokenError>)
        ensures
            realizes(r, old(self)@, final(self)@, old(self)@.accept_ownership()),
    {
        let pending = match self.read_pending_admin() {
            Some(p) => p,
            None => {
                return Err(TokenError::NoPendingAdmin);
            },
        };
        let old_admin = self.read_admin()?;
        self.access.store_admin(pending);
        self.pending_admin = None;
        Ok(
            Receipt::signed_event(
                pending,
                Event::OwnershipAccepted { old_admin, new_admin: pending },
            ),
        )
    }

    /// Cancels a pending ownership transfer; the administrator must sign.
    pub fn cancel_transfer(&mut self) -> (r: Result<Receipt, TokenError>)
        ensures
            realizes(r, old(self)@, final(self)@, old(self)@.cancel_transfer()),
    {
        let admin = self.read_admin()?;
        let pending = match self.read_pending_admin() {
            Some(p) => p,
            None => {
                return Err(TokenError::NoPendingAdmin);
            },
        };
        self.pending_admin = None;
        Ok(Receipt::signed_event(admin, Event::OwnershipCancelled { admin, pending_admin: pending }))
    }

    /// The pending administrator, if a transfer is pending.
    pub fn pending_owner(&self) -> (r: Option<AccountId>)
        ensures
            r == self@.pending_admin,
    {
        self.read_pending_admin()
    }

    /// The total token supply.
    pub fn supply(&self) -> (r: Result<i128, TokenError>)
        ensures
            r == (if self@.initialized() {
                Ok(self@.supply_value())
            } else {
                Err(TokenError::NotInitialized)
            }),
    {
        self.ensure_initialized()?;
        Ok(self.read_supply())
    }

    /// Pauses token operations (minting, transfers, burns, approvals, clawbacks,
    /// locks and withdrawals); the administrator must sign.
    pub fn pause(&mut self) -> (r: Result<Receipt, TokenError>)
        ensures
            realizes(r, old(self)@, final(self)@, old(self)@.set_paused(true)),
    {
        let admin = self.read_admin()?;
        self.paused = true;
        Ok(Receipt::signed_event(admin, Event::Paused { admin }))
    }

    /// Resumes token operations; the administrator must sign.
    pub fn unpause(&mut self) -> (r: Result<Receipt, TokenError>)
        ensures
            realizes(r, old(self)@, final(self)@, old(self)@.set_paused(false)),
    {
        let admin = self.read_admin()?;
        self.paused = false;
        Ok(Receipt::signed_event(admin, Event::Unpaused { admin }))
    }

    /// Authorises an upgrade to new contract code; the administrator must sign.
    /// Installing the code is left to the caller.
    pub fn upgrade(&self, new_wasm_hash: [u8; 32]) -> (r: Result<Receipt, TokenError>)
        ensures
            realizes(r, self@, self@, self@.upgrade(new_wasm_hash)),
    {
        self.ensure_initialized()?;
        let admin = self.read_admin()?;
        Ok(Receipt::signed_event(admin, Event::Upgrade { admin, new_wasm_hash }))
    }

    /// The contract version.
    pub fn version() -> (r: &'static str)
        ensures
            r@ == "1.1.0"@,
    {
        "1.1.0"
    }

    /// Renames the token; the administrator must sign.
    pub fn update_name(&mut self, new_name: String) -> (r: Result<Receipt, TokenError>)
        ensures
            realizes(r, old(self)@, final(self)@, old(self)@.update_name(new_name@)),
    {
        self.ensure_initialized()?;
        let admin = self.read_admin()?;
        let old_name = match &self.name {
            Some(n) => n.clone(),
            None => "bc-forge".to_string(),
        };
        let ev = Event::UpdateName { admin, old_name, new_name: new_name.clone() };
        self.name = Some(new_name);
        Ok(Receipt::signed_event(admin, ev))
    }

    /// Changes the token symbol; the administrator must sign.
    pub fn update_symbol(&mut self, new_symbol: String) -> (r: Result<Receipt, TokenError>)
        ensures
            realizes(r, old(self)@, final(self)@, old(self)@.update_symbol(new_symbol@)),
    {
        self.ensure_initialized()?;
        let admin = self.read_admin()?;
        let old_symbol = match &self.symbol {
            Some(n) => n.clone(),
            None => "SFG".to_string(),
        };
        let ev = Event::UpdateSymbol { admin, old_symbol, new_symbol: new_symbol.clone() };
        self.symbol = Some(new_symbol);
        Ok(Receipt::signed_event(admin, ev))
    }

    /// The allowance that `spender` may still spend from `from` at ledger `ledger`.
    pub fn allowance(&self, from: AccountId, spender: AccountId, ledger: u32) -> (r: Result<
        i128,
        TokenError,
    >)
        ensures
            r == (if self@.initialized() {
                Ok(self@.live_allowance(from, spender, ledger))
            } else {
                Err(TokenError::NotInitialized)
            }),
    {
        self.ensure_initialized()?;
        Ok(self.read_allowance(from, spender, ledger))
    }

    /// Approves `spender` to spend up to `amount` of `from`'s tokens until ledger
    /// `exp` (0: no expiration); `from` must sign.
    pub fn approve(&mut self, from: AccountId, spender: AccountId, amount: i128, exp: u32) -> (r:
        Result<Receipt, TokenError>)
        ensures
            realizes(r, old(self)@, final(self)@, old(self)@.approve(from, spender, amount, exp)),
    {
        self.ensure_not_paused()?;
        self.ensure_initialized()?;
        if amount < 0 {
            return Err(TokenError::InvalidAmount);
        }
        self.write_allowance(from, spender, amount, exp);
        Ok(Receipt::signed_event(from, Event::Approve { from, spender, amount }))
    }

    /// The balance of an account.
    pub fn balance(&self, id: AccountId) -> (r: Result<i128, TokenError>)
        ensures
            r == (if self@.initialized() {
                Ok(self@.balance_of(id))
            } else {
                Err(TokenError::NotInitialized)
            }),
    {
        self.ensure_initialized()?;
        Ok(self.read_balance(id))
    }

    fn ensure_spendable(&self, amount: i128) -> (r: Result<(), TokenError>)
        ensures
            r == (match self@.spend_refusal(amount) {
                Some(e) => Err(e),
                None => Ok(()),
            }),
    {
        self.ensure_not_paused()?;
        self.ensure_initialized()?;
        if amount <= 0 {
            return Err(TokenError::InvalidAmount);
        }
        Ok(())
    }

    /// Transfers `amount` tokens from `from` to `to`; `from` must sign.
    pub fn transfer(&mut self, from: AccountId, to: AccountId, amount: i128) -> (r: Result<
        Receipt,
        TokenError,
    >)
        ensures
            realizes(r, old(self)@, final(self)@, old(self)@.transfer(from, to, amount)),
    {
        self.ensure_spendable(amount)?;
        self.move_balance(from, to, amount)?;
        Ok(Receipt::signed_event(from, Event::Transfer { from, to, amount }))
    }

    /// Transfers `amount` tokens from `from` to `to` within `spender`'s live
    /// allowance at ledger `ledger`; `spender` must sign.
    pub fn transfer_from(
        &mut self,
        spender: AccountId,
        from: AccountId,
        to: AccountId,
        amount: i128,
        ledger: u32,
    ) -> (r: Result<Receipt, TokenError>)
        ensures
            realizes(
                r,
                old(self)@,
                final(self)@,
                old(self)@.transfer_from(spender, from, to, amount, ledger),
            ),
    {
        self.ensure_spendable(amount)?;
        let allowance = self.read_allowance(from, spender, ledger);
        if allowance < amount {
            return Err(TokenError::InsufficientAllowance);
        }
        let info = self.read_allowance_info(from, spender);
        self.move_balance(from, to, amount)?;
        let remaining = allowance - amount;
        self.write_allowance(from, spender, remaining, info.exp_ledger);
        Ok(
            Receipt::signed_event(
                spender,
                Event::TransferFrom { spender, from, to, amount, remaining },
            ),
        )
    }

    /// Burns `amount` of `from`'s tokens, reducing the supply; `from` must sign.
    pub fn burn(&mut self, from: AccountId, amount: i128) -> (r: Result<Receipt, TokenError>)
        ensures
            realizes(r, old(self)@, final(self)@, old(self)@.burn(from, amount)),
    {
        self.ensure_spendable(amount)?;
        let balance = self.read_balance(from);
        if balance < amount {
            return Err(TokenError::InsufficientBalance);
        }
        let supply = match self.read_supply().checked_sub(amount) {
            Some(v) => v,
            None => {
                return Err(TokenError::ArithmeticOverflow);
            },
        };
        let new_balance = balance - amount;
        self.write_balance(from, new_balance);
        self.write_supply(supply);
        Ok(
            Receipt::signed_event(
                from,
                Event::Burn { from, amount, balance: new_balance, supply },
            ),
        )
    }

    /// Burns `amount` of `from`'s tokens within `spender`'s live allowance at
    /// ledger `ledger`; `spender` must sign.
    pub fn burn_from(&mut self, spender: AccountId, from: AccountId, amount: i128, ledger: u32) -> (r:
        Result<Receipt, TokenError>)
        ensures
            realizes(r, old(self)@, final(self)@, old(self)@.burn_from(spender, from, amount, ledger)),
    {
        self.ensure_spendable(amount)?;
        let allowance = self.read_allowance(from, spender, ledger);
        if allowance < amount {
            return Err(TokenError::InsufficientAllowance);
        }
        let balance = self.read_balance(from);
        if balance < amount {
            return Err(TokenError::InsufficientBalance);
        }
        let supply = match self.read_supply().checked_sub(amount) {
            Some(v) => v,
            None => {
                return Err(TokenError::ArithmeticOverflow);
            },
        };
        let info = self.read_allowance_info(from, spender);
        self.write_allowance(from, spender, allowance - amount, info.exp_ledger);
        let new_balance = balance - amount;
        self.write_balance(from, new_balance);
        self.write_supply(supply);
        Ok(
            Receipt::signed_event(
                spender,
                Event::Burn { from, amount, balance: new_balance, supply },
            ),
        )
    }

    /// The number of decimal places, 7 when none is stored.
    pub fn decimals(&self) -> (r: Result<u32, TokenError>)
        ensures
            r == (if self@.initialized() {
                Ok(
                    match self@.decimals {
                        Some(d) => d,
                        None => 7,
                    },
                )
            } else {
                Err(TokenError::NotInitialized)
            }),
    {
        self.ensure_initialized()?;
        match self.decimals {
            Some(d) => Ok(d),
            None => Ok(7),
        }
    }

    /// The token name, "bc-forge" when none is stored.
    pub fn name(&self) -> (r: Result<String, TokenError>)
        ensures
            self@.initialized() <==> r is Ok,
            r matches Ok(n) ==> n@ == (match self@.name {
                Some(s) => s,
                None => "bc-forge"@,
            }),
            r matches Err(e) ==> e == TokenError::NotInitialized,
    {
        self.ensure_initialized()?;
        match &self.name {
            Some(n) => Ok(n.clone()),
            None => Ok("bc-forge".to_string()),
        }
    }

    /// The token symbol, "SFG" when none is stored.
    pub fn symbol(&self) -> (r: Result<String, TokenError>)
        ensures
            self@.initialized() <==> r is Ok,
            r matches Ok(n) ==> n@ == (match self@.symbol {
                Some(s) => s,
                None => "SFG"@,
            }),
            r matches Err(e) ==> e == TokenError::NotInitialized,
    {
        self.ensure_initialized()?;
        match &self.symbol {
            Some(n) => Ok(n.clone()),
            None => Ok("SFG".to_string()),
        }
    }

    fn read_treasury(&self) -> (r: Result<AccountId, TokenError>)
        ensures
            r == (match self@.treasury {
                Some(t) => Ok(t),
                None => Err(TokenError::FeeNotConfigured),
            }),
    {
        match self.treasury {
            Some(t) => Ok(t),
            None => Err(TokenError::FeeNotConfigured),
        }
    }

    fn read_fee_config(&self) -> (r: Result<FeeConfig, TokenError>)
        ensures
            r == (match self@.fee_config {
                Some(c) => Ok(c),
                None => Err(TokenError::FeeNotConfigured),
            }),
    {
        match self.fee_config {
            Some(c) => Ok(c),
            None => Err(TokenError::FeeNotConfigured),
        }
    }

    fn read_fee_exemption(&self, address: AccountId) -> (r: Option<FeeExemption>)
        ensures
            r == (if self@.fee_exemptions.contains_key(address) {
                Some(self@.fee_exemptions[address])
            } else {
                None
            }),
    {
        match self.fee_exemptions.get(&address) {
            Some(e) => Some(*e),
            None => None,
        }
    }

    /// Whether the address is exempt from fees of the given operation type.
    pub fn is_fee_exempt(&self, address: AccountId, operation_type: u8) -> (r: bool)
        ensures
            r == self@.fee_exempt(address, operation_type),
    {
        match self.read_fee_exemption(address) {
            Some(exemption) => exemption.exemption_type == 0 || exemption.exemption_type
                == operation_type,
            None => false,
        }
    }

    /// The fee of an operation of the given complexity: base fee plus
    /// complexity times the multiplier, capped at the maximum fee; zero when
    /// fees are not configured or disabled. The operation type does not enter.
    pub fn calculate_fee(&self, operation_type: u8, complexity: u32) -> (r: Result<i128, TokenError>)
        ensures
            r == self@.fee(complexity),
    {
        let fee_config = match self.read_fee_config() {
            Ok(config) => config,
            Err(_) => {
                return Ok(0);
            },
        };
        if !fee_config.enabled {
            return Ok(0);
        }
        let multiplier = fee_config.complexity_multiplier as i128;
        let c = complexity as i128;
        proof {
            assert(0 <= c * multiplier <= 0xffff_ffff * 0xffff_ffff) by (nonlinear_arith)
                requires
                    0 <= c <= 0xffff_ffff,
                    0 <= multiplier <= 0xffff_ffff,
            ;
        }
        let complexity_fee = c * multiplier;
        let total_fee = match fee_config.base_fee.checked_add(complexity_fee) {
            Some(v) => v,
            None => {
                return Err(TokenError::ArithmeticOverflow);
            },
        };
        if total_fee > fee_config.max_fee {
            Ok(fee_config.max_fee)
        } else {
            Ok(total_fee)
        }
    }

    /// Charges the fee of an operation to `payer`, for the treasury, unless the
    /// payer is exempt or the fee is zero.
    pub fn charge_fee(&mut self, payer: AccountId, operation_type: u8, complexity: u32) -> (r:
        Result<Receipt, TokenError>)
        ensures
            realizes(
                r,
                old(self)@,
                final(self)@,
                old(self)@.charge_fee(payer, operation_type, complexity),
            ),
    {
        if self.is_fee_exempt(payer, operation_type) {
            return Ok(Receipt::empty());
        }
        let fee_amount = self.calculate_fee(operation_type, complexity)?;
        if fee_amount == 0 {
            return Ok(Receipt::empty());
        }
        let treasury = self.read_treasury()?;
        let payer_balance = self.read_balance(payer);
        if payer_balance < fee_amount {
            return Err(TokenError::InsufficientFeeBalance);
        }
        self.move_balance(payer, treasury, fee_amount)?;
        Ok(Receipt::event_only(Event::FeeCharged { payer, treasury, amount: fee_amount }))
    }

    /// Stores the fee configuration.
    pub fn set_fee_config(&mut self, config: FeeConfig)
        ensures
            final(self)@ == (TokenView { fee_config: Some(config), ..old(self)@ }),
    {
        self.fee_config = Some(config);
    }

    /// Stores the treasury that collects fees.
    pub fn set_treasury(&mut self, treasury: AccountId)
        ensures
            final(self)@ == (TokenView { treasury: Some(treasury), ..old(self)@ }),
    {
        self.treasury = Some(treasury);
    }

    /// Stores a fee exemption for an address.
    pub fn set_fee_exemption(&mut self, address: AccountId, exemption: FeeExemption)
        ensures
            final(self)@ == (TokenView {
                fee_exemptions: old(self)@.fee_exemptions.insert(address, exemption),
                ..old(self)@
            }),
    {
        self.fee_exemptions.insert(address, exemption);
    }

    /// The state as plain, storable values.
    pub fn to_snapshot(&self) -> (r: TokenSnapshot)
        ensures
            r@ == self@,
    {
        let r = TokenSnapshot {
            access: self.access.to_snapshot(),
            paused: self.paused,
            decimals: self.decimals,
            name: copy_text(&self.name),
            symbol: copy_text(&self.symbol),
            supply: self.supply,
            balances: export_map(&self.balances),
            allowances: export_map(&self.allowances),
            pending_admin: self.pending_admin,
            clawback_admin: self.clawback_admin,
            lockups: export_map(&self.lockups),
            proposal_actions: export_map(&self.proposal_actions),
            treasury: self.treasury,
            fee_config: self.fee_config,
            fee_exemptions: export_map(&self.fee_exemptions),
        };
        proof {
            assert(r@.allowances =~= self@.allowances);
        }
        r
    }

    /// The state that a snapshot describes.
    pub fn from_snapshot(snap: &TokenSnapshot) -> (r: BcForgeToken)
        ensures
            r@ == snap@,
    {
        let r = BcForgeToken {
            access: AdminState::from_snapshot(&snap.access),
            paused: snap.paused,
            decimals: snap.decimals,
            name: copy_text(&snap.name),
            symbol: copy_text(&snap.symbol),
            supply: snap.supply,
            balances: import_map(&snap.balances),
            allowances: import_map(&snap.allowances),
            pending_admin: snap.pending_admin,
            clawback_admin: snap.clawback_admin,
            lockups: import_map(&snap.lockups),
            proposal_actions: import_map(&snap.proposal_actions),
            treasury: snap.treasury,
            fee_config: snap.fee_config,
            fee_exemptions: import_map(&snap.fee_exemptions),
        };
        proof {
            assert(r@.allowances =~= snap@.allowances);
        }
        r
    }

    /// Every map of the state is finite.
    pub proof fn lemma_view_finite(&self)
        ensures
            self@.balances.dom().finite(),
            self@.lockups.dom().finite(),
            self@.allowances.dom().finite(),
            self@.proposal_actions.dom().finite(),
            self@.fee_exemptions.dom().finite(),
            self@.access.proposals.dom().finite(),
    {
        self.access.lemma_view_finite();
        let keys = self.allowances@.dom();
        assert(keys.finite());
        keys.lemma_map_finite(|k: u128| pair_of_key(k));
        assert forall|p: (AccountId, AccountId)| #[trigger] self@.allowances.dom().contains(p) implies keys.map(
            |k: u128| pair_of_key(k),
        ).contains(p) by {
            lemma_pair_of_key(p.0, p.1);
            assert(keys.contains(pair_key(p.0, p.1)));
        }
        vstd::set_lib::lemma_set_subset_finite(
            keys.map(|k: u128| pair_of_key(k)),
            self@.allowances.dom(),
        );
    }

}

} // verus!
