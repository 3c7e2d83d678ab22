//! Properties that hold across the operations of the token contract.

use vstd::prelude::*;
use crate::error::{AdminError, TokenError};
use crate::events::ReceiptView;
use crate::model::{
    balance_in,
    balance_total,
    balance_weight,
    fits,
    locked_total,
    lockup_weight,
    refuse,
    Outcome,
    TokenView,
};
use crate::sums::{lemma_sum_empty, lemma_sum_insert, lemma_sum_remove_any};
use crate::types::{AccountId, FeeConfig, LockupInfo, Recipient, Role, TokenAction};

verus! {

/// A call of one of the contract's state-changing entry points.
pub enum Call {
    Initialize { admin: AccountId, decimal: u32, name: Seq<char>, symbol: Seq<char> },
    Mint { to: AccountId, amount: i128 },
    SetAdminPool { pool: Seq<AccountId>, threshold: u32 },
    ProposeAction { admin: AccountId, action: TokenAction, description: Seq<char> },
    ApproveProposal { admin: AccountId, proposal_id: u64 },
    ExecuteProposal { proposal_id: u64 },
    SetClawbackAdmin { admin: AccountId },
    Clawback { from: AccountId, to: AccountId, amount: i128 },
    GrantRole { role: Role, address: AccountId },
    RevokeRole { role: Role, address: AccountId },
    BatchMint { recipients: Seq<Recipient> },
    LockTokens { user: AccountId, amount: i128, unlock_time: u64 },
    WithdrawLocked { user: AccountId, now: u64 },
    TransferOwnership { new_admin: AccountId },
    ProposeOwner { new_admin: AccountId },
    AcceptOwnership,
    CancelTransfer,
    SetPaused { paused: bool },
    Upgrade { new_wasm_hash: [u8; 32] },
    UpdateName { new_name: Seq<char> },
    UpdateSymbol { new_symbol: Seq<char> },
    Approve { from: AccountId, spender: AccountId, amount: i128, exp_ledger: u32 },
    Transfer { from: AccountId, to: AccountId, amount: i128 },
    TransferFrom { spender: AccountId, from: AccountId, to: AccountId, amount: i128, ledger: u32 },
    Burn { from: AccountId, amount: i128 },
    BurnFrom { spender: AccountId, from: AccountId, amount: i128, ledger: u32 },
    ChargeFee { payer: AccountId, operation_type: u8, complexity: u32 },
}

/// The outcome of a call on a state.
pub open spec fn apply(s: TokenView, call: Call) -> Outcome {
    match call {
        Call::Initialize { admin, decimal, name, symbol } => s.initialize(admin, decimal, name, symbol),
        Call::Mint { to, amount } => s.mint(to, amount),
        Call::SetAdminPool { pool, threshold } => s.set_admin_pool(pool, threshold),
        Call::ProposeAction { admin, action, description } => s.propose_action(
            admin,
            action,
            description,
        ),
        Call::ApproveProposal { admin, proposal_id } => s.approve_proposal(admin, proposal_id),
        Call::ExecuteProposal { proposal_id } => s.execute_proposal(proposal_id),
        Call::SetClawbackAdmin { admin } => s.set_clawback_admin(admin),
        Call::Clawback { from, to, amount } => s.clawback(from, to, amount),
        Call::GrantRole { role, address } => s.grant_role(role, address),
        Call::RevokeRole { role, address } => s.revoke_role(role, address),
        Call::BatchMint { recipients } => s.batch_mint(recipients),
        Call::LockTokens { user, amount, unlock_time } => s.lock_tokens(user, amount, unlock_time),
        Call::WithdrawLocked { user, now } => s.withdraw_locked(user, now),
        Call::TransferOwnership { new_admin } => s.transfer_ownership(new_admin),
        Call::ProposeOwner { new_admin } => s.propose_owner(new_admin),
        Call::AcceptOwnership => s.accept_ownership(),
        Call::CancelTransfer => s.cancel_transfer(),
        Call::SetPaused { paused } => s.set_paused(paused),
        Call::Upgrade { new_wasm_hash } => s.upgrade(new_wasm_hash),
        Call::UpdateName { new_name } => s.update_name(new_name),
        Call::UpdateSymbol { new_symbol } => s.update_symbol(new_symbol),
        Call::Approve { from, spender, amount, exp_ledger } => s.approve(
            from,
            spender,
            amount,
            exp_ledger,
        ),
        Call::Transfer { from, to, amount } => s.transfer(from, to, amount),
        Call::TransferFrom { spender, from, to, amount, ledger } => s.transfer_from(
            spender,
            from,
            to,
            amount,
            ledger,
        ),
        Call::Burn { from, amount } => s.burn(from, amount),
        Call::BurnFrom { spender, from, amount, ledger } => s.burn_from(spender, from, amount, ledger),
        Call::ChargeFee { payer, operation_type, complexity } => s.charge_fee(
            payer,
            operation_type,
            complexity,
        ),
    }
}

/// Writing one balance shifts the total of balances by the change in that balance.
pub proof fn lemma_balance_total_insert(m: Map<AccountId, i128>, a: AccountId, v: i128)
    requires
        m.dom().finite(),
    ensures
        m.insert(a, v).dom().finite(),
        balance_total(m.insert(a, v)) == balance_total(m) - balance_in(m, a) + v,
{
    lemma_sum_insert(m, balance_weight(), a, v);
}

/// Writing one lockup shifts the locked total by the change in that lockup.
pub proof fn lemma_locked_total_insert(m: Map<AccountId, LockupInfo>, a: AccountId, l: LockupInfo)
    requires
        m.dom().finite(),
    ensures
        m.insert(a, l).dom().finite(),
        locked_total(m.insert(a, l)) == locked_total(m) - (if m.contains_key(a) {
            m[a].amount as int
        } else {
            0
        }) + l.amount,
{
    lemma_sum_insert(m, lockup_weight(), a, l);
}

/// Removing one lockup takes its amount out of the locked total.
pub proof fn lemma_locked_total_remove(m: Map<AccountId, LockupInfo>, a: AccountId)
    requires
        m.dom().finite(),
        m.contains_key(a),
    ensures
        m.remove(a).dom().finite(),
        locked_total(m.remove(a)) == locked_total(m) - m[a].amount,
{
    lemma_sum_remove_any(m, lockup_weight(), a);
}

/// Moving a balance leaves the total of balances, the lockups, the supply and
/// the access state as they were.
pub proof fn lemma_move_balance_keeps_total(s: TokenView, from: AccountId, to: AccountId, amount: i128)
    requires
        s.balances.dom().finite(),
        s.move_balance(from, to, amount) is Ok,
    ensures
        ({
            let t = s.move_balance(from, to, amount)->Ok_0;
            &&& t.balances.dom().finite()
            &&& balance_total(t.balances) == balance_total(s.balances)
            &&& t == TokenView { balances: t.balances, ..s }
        }),
{
    if from != to {
        let fb = s.balance_of(from);
        let tb = s.balance_of(to);
        let m1 = s.balances.insert(from, (fb - amount) as i128);
        lemma_balance_total_insert(s.balances, from, (fb - amount) as i128);
        lemma_balance_total_insert(m1, to, (tb + amount) as i128);
        assert(balance_in(m1, to) == tb);
    }
}

/// Minting adds the amount to both the balances and the supply.
pub proof fn lemma_mint_to_consistent(s: TokenView, to: AccountId, amount: i128)
    requires
        s.ledger_consistent(),
        s.mint_to(to, amount) is Ok,
    ensures
        s.mint_to(to, amount)->Ok_0.0.ledger_consistent(),
{
    let b = s.balance_of(to) + amount;
    lemma_balance_total_insert(s.balances, to, b as i128);
}

/// Crediting a batch adds the batch total to the balances.
pub proof fn lemma_batch_credit_total(s: TokenView, admin: AccountId, recipients: Seq<Recipient>)
    requires
        s.balances.dom().finite(),
        s.batch_credit(admin, recipients) is Ok,
    ensures
        ({
            let (bal, total, events) = s.batch_credit(admin, recipients)->Ok_0;
            &&& bal.dom().finite()
            &&& balance_total(bal) == balance_total(s.balances) + total
            &&& events.len() == recipients.len()
        }),
    decreases recipients.len(),
{
    if recipients.len() > 0 {
        lemma_batch_credit_total(s, admin, recipients.drop_last());
        let (bal, total, events) = s.batch_credit(admin, recipients.drop_last())->Ok_0;
        let r = recipients.last();
        let nb = balance_in(bal, r.address) + r.amount;
        lemma_balance_total_insert(bal, r.address, nb as i128);
    }
}

/// A state that keeps the balances, lockups and recorded supply of a consistent
/// state, and is initialized whenever a supply is recorded, is consistent.
pub proof fn lemma_ledger_frame(s: TokenView, t: TokenView)
    requires
        s.ledger_consistent(),
        t.balances == s.balances,
        t.lockups == s.lockups,
        t.supply_value() == s.supply_value(),
        !t.initialized() ==> t.supply is None,
    ensures
        t.ledger_consistent(),
{
}

proof fn lemma_execute_consistent(s: TokenView, proposal_id: u64)
    requires
        s.ledger_consistent(),
    ensures
        s.execute_proposal(proposal_id) matches Ok((t, _)) ==> t.ledger_consistent(),
{
    if s.execute_proposal(proposal_id) is Ok {
        let marked = TokenView {
            access: s.access.with_executed(proposal_id),
            proposal_actions: s.proposal_actions.remove(proposal_id),
            ..s
        };
        assert(marked.ledger_consistent());
        match s.proposal_actions[proposal_id] {
            TokenAction::Mint(to, amount) => {
                lemma_mint_to_consistent(marked, to, amount);
            },
            _ => {},
        }
    }
}

proof fn lemma_batch_mint_consistent(s: TokenView, recipients: Seq<Recipient>)
    requires
        s.ledger_consistent(),
    ensures
        s.batch_mint(recipients) matches Ok((t, _)) ==> t.ledger_consistent(),
{
    if s.batch_mint(recipients) is Ok {
        lemma_batch_credit_total(s, s.access.admin->Some_0, recipients);
    }
}

proof fn lemma_lock_consistent(s: TokenView, user: AccountId, amount: i128, unlock_time: u64)
    requires
        s.ledger_consistent(),
    ensures
        s.lock_tokens(user, amount, unlock_time) matches Ok((t, _)) ==> t.ledger_consistent(),
{
    if s.lock_tokens(user, amount, unlock_time) is Ok {
        let b = s.balance_of(user);
        let l = s.lockup_of(user);
        let new_unlock = if unlock_time > l.unlock_time {
            unlock_time
        } else {
            l.unlock_time
        };
        lemma_balance_total_insert(s.balances, user, (b - amount) as i128);
        lemma_locked_total_insert(
            s.lockups,
            user,
            LockupInfo { amount: (l.amount + amount) as i128, unlock_time: new_unlock },
        );
    }
}

proof fn lemma_withdraw_consistent(s: TokenView, user: AccountId, now: u64)
    requires
        s.ledger_consistent(),
    ensures
        s.withdraw_locked(user, now) matches Ok((t, _)) ==> t.ledger_consistent(),
{
    if s.withdraw_locked(user, now) is Ok {
        let l = s.lockups[user];
        lemma_balance_total_insert(s.balances, user, (s.balance_of(user) + l.amount) as i128);
        lemma_locked_total_remove(s.lockups, user);
    }
}

proof fn lemma_burn_consistent(s: TokenView, spender: AccountId, from: AccountId, amount: i128, ledger: u32)
    requires
        s.ledger_consistent(),
    ensures
        s.burn(from, amount) matches Ok((t, _)) ==> t.ledger_consistent(),
        s.burn_from(spender, from, amount, ledger) matches Ok((t, _)) ==> t.ledger_consistent(),
{
    lemma_balance_total_insert(s.balances, from, (s.balance_of(from) - amount) as i128);
}

proof fn lemma_moves_consistent(
    s: TokenView,
    spender: AccountId,
    from: AccountId,
    to: AccountId,
    amount: i128,
    ledger: u32,
)
    requires
        s.ledger_consistent(),
    ensures
        s.transfer(from, to, amount) matches Ok((t, _)) ==> t.ledger_consistent(),
        s.transfer_from(spender, from, to, amount, ledger) matches Ok((t, _)) ==> t.ledger_consistent(),
        s.clawback(from, to, amount) matches Ok((t, _)) ==> t.ledger_consistent(),
{
    if s.move_balance(from, to, amount) is Ok {
        lemma_move_balance_keeps_total(s, from, to, amount);
    }
}

proof fn lemma_fee_consistent(s: TokenView, payer: AccountId, operation_type: u8, complexity: u32)
    requires
        s.ledger_consistent(),
    ensures
        s.charge_fee(payer, operation_type, complexity) matches Ok((t, _)) ==> t.ledger_consistent(),
{
    if s.charge_fee(payer, operation_type, complexity) is Ok && !s.fee_exempt(payer, operation_type)
        && s.fee(complexity) is Ok && s.fee(complexity)->Ok_0 != 0 && s.treasury is Some {
        lemma_move_balance_keeps_total(s, payer, s.treasury->Some_0, s.fee(complexity)->Ok_0);
    }
}

/// A freshly deployed contract has a consistent ledger.
pub proof fn law_initial_consistent()
    ensures
        TokenView::initial().ledger_consistent(),
{
    lemma_sum_empty::<AccountId, i128>(balance_weight());
    lemma_sum_empty::<AccountId, LockupInfo>(lockup_weight());
    assert(Map::<AccountId, i128>::empty().dom() =~= Set::empty());
    assert(Map::<AccountId, LockupInfo>::empty().dom() =~= Set::empty());
}

/// Every operation keeps the ledger consistent: the recorded supply stays equal
/// to the sum of all balances and all locked amounts, and no supply is recorded
/// before the contract is initialized.
#[verifier::spinoff_prover]
pub proof fn law_ledger_consistent(s: TokenView, call: Call)
    requires
        s.ledger_consistent(),
    ensures
        apply(s, call) matches Ok((t, _)) ==> t.ledger_consistent(),
{
    match call {
        Call::Mint { to, amount } => {
            if s.mint(to, amount) is Ok {
                lemma_mint_to_consistent(s, to, amount);
            }
        },
        Call::ExecuteProposal { proposal_id } => lemma_execute_consistent(s, proposal_id),
        Call::Clawback { from, to, amount } => lemma_moves_consistent(s, from, from, to, amount, 0),
        Call::BatchMint { recipients } => lemma_batch_mint_consistent(s, recipients),
        Call::LockTokens { user, amount, unlock_time } => lemma_lock_consistent(
            s,
            user,
            amount,
            unlock_time,
        ),
        Call::WithdrawLocked { user, now } => lemma_withdraw_consistent(s, user, now),
        Call::Transfer { from, to, amount } => lemma_moves_consistent(s, from, from, to, amount, 0),
        Call::TransferFrom { spender, from, to, amount, ledger } => lemma_moves_consistent(
            s,
            spender,
            from,
            to,
            amount,
            ledger,
        ),
        Call::Burn { from, amount } => lemma_burn_consistent(s, from, from, amount, 0),
        Call::BurnFrom { spender, from, amount, ledger } => lemma_burn_consistent(
            s,
            spender,
            from,
            amount,
            ledger,
        ),
        Call::ChargeFee { payer, operation_type, complexity } => lemma_fee_consistent(
            s,
            payer,
            operation_type,
            complexity,
        ),
        _ => {},
    }
}

/// A contract initializes once: a second initialization is refused.
pub proof fn law_initialize_once(
    s: TokenView,
    admin: AccountId,
    decimal: u32,
    name: Seq<char>,
    symbol: Seq<char>,
    admin2: AccountId,
    decimal2: u32,
    name2: Seq<char>,
    symbol2: Seq<char>,
)
    ensures
        s.initialize(admin, decimal, name, symbol) matches Ok((t, _)) ==> t.initialize(
            admin2,
            decimal2,
            name2,
            symbol2,
        ) == Err::<(TokenView, ReceiptView), TokenError>(TokenError::AlreadyInitialized),
{
}

/// Two-step ownership: once a new administrator is proposed, its acceptance
/// makes it the administrator (without granting a role), clears the pending
/// transfer, and is signed by the new administrator.
pub proof fn law_propose_then_accept(s: TokenView, new_admin: AccountId)
    ensures
        s.propose_owner(new_admin) matches Ok((t, _)) ==> t.accept_ownership() matches Ok((u, rc))
            && u.access.admin == Some(new_admin) && u.access.roles == s.access.roles
            && u.pending_admin is None && rc.signers == seq![new_admin],
{
}

/// Cancelling a proposed transfer leaves the state as before the proposal,
/// except that nothing is pending.
pub proof fn law_propose_then_cancel(s: TokenView, new_admin: AccountId)
    ensures
        s.propose_owner(new_admin) matches Ok((t, _)) ==> t.cancel_transfer() matches Ok((u, _))
            && u == (TokenView { pending_admin: None, ..s }),
{
}

/// Every token operation is refused because the contract is paused: minting,
/// batch minting, transfers, burns, approvals, clawbacks, locks and withdrawals.
pub open spec fn refuses_token_operations(s: TokenView) -> bool {
    let paused = refuse(TokenError::ContractPaused);
    &&& forall|to: AccountId, amount: i128| #[trigger] s.mint(to, amount) == paused
    &&& forall|recipients: Seq<Recipient>| #[trigger] s.batch_mint(recipients) == paused
    &&& forall|from: AccountId, to: AccountId, amount: i128| #[trigger] s.transfer(from, to, amount) == paused
    &&& forall|spender: AccountId, from: AccountId, to: AccountId, amount: i128, ledger: u32|
        #[trigger] s.transfer_from(spender, from, to, amount, ledger) == paused
    &&& forall|from: AccountId, amount: i128| #[trigger] s.burn(from, amount) == paused
    &&& forall|spender: AccountId, from: AccountId, amount: i128, ledger: u32|
        #[trigger] s.burn_from(spender, from, amount, ledger) == paused
    &&& forall|from: AccountId, spender: AccountId, amount: i128, exp_ledger: u32|
        #[trigger] s.approve(from, spender, amount, exp_ledger) == paused
    &&& forall|from: AccountId, to: AccountId, amount: i128| #[trigger] s.clawback(from, to, amount) == paused
    &&& forall|user: AccountId, amount: i128, unlock_time: u64|
        #[trigger] s.lock_tokens(user, amount, unlock_time) == paused
    &&& forall|user: AccountId, now: u64| #[trigger] s.withdraw_locked(user, now) == paused
}

/// While the contract is paused, every token operation is refused.
pub proof fn law_paused_blocks_spending(s: TokenView)
    requires
        s.paused,
    ensures
        refuses_token_operations(s),
{
}

/// Pausing sets the flag and changes no balance, lockup or supply.
pub proof fn law_pause_keeps_holdings(s: TokenView)
    ensures
        s.set_paused(true) matches Ok((t, _)) ==> t.paused && t.balances == s.balances
            && t.lockups == s.lockups && t.supply == s.supply,
{
}

/// The state after a sequence of calls; a refused call leaves the state as it was.
pub open spec fn run(s: TokenView, calls: Seq<Call>) -> TokenView
    decreases calls.len(),
{
    if calls.len() == 0 {
        s
    } else {
        let t = run(s, calls.drop_last());
        match apply(t, calls.last()) {
            Ok((u, _)) => u,
            Err(_) => t,
        }
    }
}

/// Whether a call, made in state `s`, is one that unpauses: `unpause`, or the
/// execution of a proposal whose action is to unpause.
pub open spec fn unpauses(s: TokenView, call: Call) -> bool {
    match call {
        Call::SetPaused { paused } => !paused,
        Call::ExecuteProposal { proposal_id } => s.proposal_actions.contains_key(proposal_id)
            && s.proposal_actions[proposal_id] == TokenAction::Unpause,
        _ => false,
    }
}

/// Whether no call of the sequence, made in turn from `s`, unpauses.
pub open spec fn never_unpauses(s: TokenView, calls: Seq<Call>) -> bool
    decreases calls.len(),
{
    calls.len() == 0 || (never_unpauses(s, calls.drop_last()) && !unpauses(
        run(s, calls.drop_last()),
        calls.last(),
    ))
}

proof fn lemma_pause_persists(s: TokenView, call: Call)
    requires
        s.paused,
        !unpauses(s, call),
    ensures
        apply(s, call) matches Ok((t, _)) ==> t.paused,
{
}

/// Once paused, the contract stays paused, and refuses every token operation,
/// through any sequence of calls none of which unpauses.
pub proof fn law_pause_holds_until_unpause(s: TokenView, calls: Seq<Call>)
    requires
        s.paused,
        never_unpauses(s, calls),
    ensures
        run(s, calls).paused,
        refuses_token_operations(run(s, calls)),
    decreases calls.len(),
{
    if calls.len() > 0 {
        law_pause_holds_until_unpause(s, calls.drop_last());
        lemma_pause_persists(run(s, calls.drop_last()), calls.last());
    }
    law_paused_blocks_spending(run(s, calls));
}

/// Unpausing undoes pausing.
pub proof fn law_pause_then_unpause(s: TokenView)
    requires
        !s.paused,
    ensures
        s.set_paused(true) matches Ok((t, _)) ==> t.set_paused(false) matches Ok((u, _)) && u == s,
{
}

/// A proposal is executed at most once.
pub proof fn law_execute_once(s: TokenView, proposal_id: u64)
    ensures
        s.execute_proposal(proposal_id) matches Ok((t, _)) ==> t.execute_proposal(proposal_id) == Err::<
            (TokenView, ReceiptView),
            TokenError,
        >(TokenError::Admin(AdminError::AlreadyExecuted)),
{
}

/// A pool member approves a proposal at most once.
pub proof fn law_approve_once(s: TokenView, admin: AccountId, proposal_id: u64)
    ensures
        s.approve_proposal(admin, proposal_id) matches Ok((t, _)) ==> t.approve_proposal(
            admin,
            proposal_id,
        ) == Err::<(TokenView, ReceiptView), TokenError>(
            TokenError::Admin(AdminError::AlreadyApproved),
        ),
{
    if s.approve_proposal(admin, proposal_id) is Ok {
        let t = s.approve_proposal(admin, proposal_id)->Ok_0.0;
        let approvals = s.access.proposals[proposal_id].approvals.push(admin);
        assert(approvals[approvals.len() - 1] == admin);
        assert(t.access.proposals[proposal_id].approvals.contains(admin));
        assert(t.access.admin_pool() == s.access.admin_pool());
    }
}

/// Burning what was just minted to an account restores its balance and the
/// supply, for an account whose balance is not negative.
pub proof fn law_mint_then_burn(s: TokenView, to: AccountId, amount: i128)
    requires
        s.balance_of(to) >= 0,
    ensures
        s.mint(to, amount) matches Ok((t, _)) ==> t.burn(to, amount) matches Ok((u, _))
            && u.balance_of(to) == s.balance_of(to) && u.supply_value() == s.supply_value(),
{
    if s.mint(to, amount) is Ok {
        let t = s.mint(to, amount)->Ok_0.0;
        let b = s.balance_of(to) + amount;
        let sv = s.supply_value() + amount;
        assert(t == s.with_balance(to, b as i128).with_supply(sv as i128));
        assert(t.balance_of(to) == b);
        assert(t.supply_value() == sv);
        assert(t.spend_refusal(amount) is None);
        assert(t.burn(to, amount) is Ok);
    }
}

/// A transfer between two accounts takes the amount from one, gives it to the
/// other, and leaves every other balance as it was.
pub proof fn law_transfer_moves_amount(
    s: TokenView,
    from: AccountId,
    to: AccountId,
    amount: i128,
    other: AccountId,
)
    requires
        from != to,
        other != from,
        other != to,
    ensures
        s.transfer(from, to, amount) matches Ok((t, _)) ==> {
            &&& t.balance_of(from) == s.balance_of(from) - amount
            &&& t.balance_of(to) == s.balance_of(to) + amount
            &&& t.balance_of(other) == s.balance_of(other)
        },
{
}

/// What an approval writes is what the allowance reads until its expiration
/// ledger, and nothing after it.
pub proof fn law_approve_then_allowance(
    s: TokenView,
    from: AccountId,
    spender: AccountId,
    amount: i128,
    exp_ledger: u32,
    ledger: u32,
)
    ensures
        s.approve(from, spender, amount, exp_ledger) matches Ok((t, _)) ==> t.live_allowance(
            from,
            spender,
            ledger,
        ) == (if exp_ledger > 0 && ledger > exp_ledger {
            0
        } else {
            amount
        }),
{
}

/// Spending through an allowance lowers it by exactly the amount spent.
pub proof fn law_transfer_from_spends_allowance(
    s: TokenView,
    spender: AccountId,
    from: AccountId,
    to: AccountId,
    amount: i128,
    ledger: u32,
)
    ensures
        s.transfer_from(spender, from, to, amount, ledger) matches Ok((t, _)) ==> t.live_allowance(
            from,
            spender,
            ledger,
        ) == s.live_allowance(from, spender, ledger) - amount,
{
}

/// After a pool is configured, its first member is the administrator and every
/// member belongs to the pool and holds every role.
pub proof fn law_pool_members_are_admins(
    s: TokenView,
    pool: Seq<AccountId>,
    threshold: u32,
    role: Role,
    i: int,
)
    requires
        0 <= i < pool.len(),
    ensures
        s.set_admin_pool(pool, threshold) matches Ok((t, _)) ==> {
            &&& t.access.admin == Some(pool[0])
            &&& t.access.is_pool_member(pool[i])
            &&& t.access.has_role(role, pool[i])
            &&& t.access.threshold_value() == threshold
        },
{
    if s.set_admin_pool(pool, threshold) is Ok {
        let t = s.set_admin_pool(pool, threshold)->Ok_0.0;
        assert(pool.to_set().contains(pool[i]));
        assert(pool.to_set().map(|m: AccountId| (Role::Admin, m)).contains((Role::Admin, pool[i])));
        assert(t.access.admin_pool() == pool);
        assert(pool.contains(pool[i]));
    }
}

/// Revoking a freshly granted role undoes the grant.
pub proof fn law_grant_then_revoke(s: TokenView, role: Role, address: AccountId)
    requires
        s.initialized(),
        !s.access.roles.contains((role, address)),
    ensures
        s.grant_role(role, address) matches Ok((t, _)) ==> t.revoke_role(role, address) matches Ok((u, _))
            && u == s,
{
    let t = s.grant_role(role, address)->Ok_0.0;
    let u = t.revoke_role(role, address)->Ok_0.0;
    assert(u.access.roles =~= s.access.roles);
    assert(u.access == s.access);
}

/// Every stored proposal has an identifier below the next one to be handed out.
pub open spec fn ids_below_counter(s: TokenView) -> bool {
    forall|k: u64| #[trigger] s.access.proposals.contains_key(k) ==> k < s.access.next_proposal_id
}

/// Whether the proposal is stored and marked executed.
pub open spec fn proposal_executed(s: TokenView, id: u64) -> bool {
    s.access.proposals.contains_key(id) && s.access.proposals[id].executed
}

/// A freshly deployed contract stores no proposal.
pub proof fn law_initial_ids_below_counter()
    ensures
        ids_below_counter(TokenView::initial()),
{
}

proof fn lemma_propose_keeps_ids(s: TokenView, admin: AccountId, action: TokenAction, description: Seq<char>, id: u64)
    requires
        ids_below_counter(s),
    ensures
        s.propose_action(admin, action, description) matches Ok((t, _)) ==> ids_below_counter(t) && (
        proposal_executed(s, id) ==> proposal_executed(t, id)),
{
    if s.propose_action(admin, action, description) is Ok {
        let t = s.propose_action(admin, action, description)->Ok_0.0;
        assert forall|k: u64| #[trigger] t.access.proposals.contains_key(k) implies k
            < t.access.next_proposal_id by {
            if k != s.access.next_proposal_id {
                assert(s.access.proposals.contains_key(k));
            }
        }
        if proposal_executed(s, id) {
            assert(id < s.access.next_proposal_id);
        }
    }
}

/// Whether a call leaves the stored proposals and the counter as they are.
pub open spec fn keeps_proposals(s: TokenView, t: TokenView) -> bool {
    t.access.proposals == s.access.proposals && t.access.next_proposal_id == s.access.next_proposal_id
}

proof fn lemma_other_calls_keep_proposals(s: TokenView, call: Call)
    requires
        !(call is ProposeAction || call is ApproveProposal || call is ExecuteProposal),
    ensures
        apply(s, call) matches Ok((t, _)) ==> keeps_proposals(s, t),
{
    match call {
        Call::Initialize { admin, decimal, name, symbol } => {},
        Call::Mint { to, amount } => {},
        Call::SetAdminPool { pool, threshold } => {},
        Call::SetClawbackAdmin { admin } => {},
        Call::Clawback { from, to, amount } => {},
        Call::GrantRole { role, address } => {},
        Call::RevokeRole { role, address } => {},
        Call::BatchMint { recipients } => {},
        Call::LockTokens { user, amount, unlock_time } => {},
        Call::WithdrawLocked { user, now } => {},
        Call::TransferOwnership { new_admin } => {},
        Call::ProposeOwner { new_admin } => {},
        Call::AcceptOwnership => {},
        Call::CancelTransfer => {},
        Call::SetPaused { paused } => {},
        Call::Upgrade { new_wasm_hash } => {},
        Call::UpdateName { new_name } => {},
        Call::UpdateSymbol { new_symbol } => {},
        Call::Approve { from, spender, amount, exp_ledger } => {},
        Call::Transfer { from, to, amount } => {},
        Call::TransferFrom { spender, from, to, amount, ledger } => {},
        Call::Burn { from, amount } => {},
        Call::BurnFrom { spender, from, amount, ledger } => {},
        Call::ChargeFee { payer, operation_type, complexity } => {},
        _ => {},
    }
}

proof fn lemma_approve_keeps_ids(s: TokenView, admin: AccountId, proposal_id: u64, id: u64)
    requires
        ids_below_counter(s),
    ensures
        s.approve_proposal(admin, proposal_id) matches Ok((t, _)) ==> ids_below_counter(t) && (
        proposal_executed(s, id) ==> proposal_executed(t, id)),
{
    if s.approve_proposal(admin, proposal_id) is Ok {
        let t = s.approve_proposal(admin, proposal_id)->Ok_0.0;
        assert forall|k: u64| #[trigger] t.access.proposals.contains_key(k) implies k
            < t.access.next_proposal_id by {
            assert(s.access.proposals.contains_key(k));
        }
    }
}

proof fn lemma_execute_keeps_ids(s: TokenView, proposal_id: u64, id: u64)
    requires
        ids_below_counter(s),
    ensures
        s.execute_proposal(proposal_id) matches Ok((t, _)) ==> ids_below_counter(t) && (
        proposal_executed(s, id) ==> proposal_executed(t, id)) && proposal_executed(t, proposal_id),
{
    if s.execute_proposal(proposal_id) is Ok {
        let t = s.execute_proposal(proposal_id)->Ok_0.0;
        assert(t.access == s.access.with_executed(proposal_id));
        assert forall|k: u64| #[trigger] t.access.proposals.contains_key(k) implies k
            < t.access.next_proposal_id by {
            assert(s.access.proposals.contains_key(k));
        }
    }
}

proof fn lemma_executed_persists(s: TokenView, call: Call, id: u64)
    requires
        ids_below_counter(s),
    ensures
        apply(s, call) matches Ok((t, _)) ==> ids_below_counter(t) && (proposal_executed(s, id)
            ==> proposal_executed(t, id)),
{
    match call {
        Call::ProposeAction { admin, action, description } => {
            lemma_propose_keeps_ids(s, admin, action, description, id);
        },
        Call::ApproveProposal { admin, proposal_id } => {
            lemma_approve_keeps_ids(s, admin, proposal_id, id);
        },
        Call::ExecuteProposal { proposal_id } => {
            lemma_execute_keeps_ids(s, proposal_id, id);
        },
        _ => {
            lemma_other_calls_keep_proposals(s, call);
        },
    }
}

/// A proposal is executed at most once, whatever calls come between: once
/// executed, every later attempt to execute it is refused. This holds in every
/// state whose proposals have identifiers below the counter, which every
/// reachable state has.
pub proof fn law_execute_at_most_once(s: TokenView, proposal_id: u64, calls: Seq<Call>)
    requires
        ids_below_counter(s),
    ensures
        s.execute_proposal(proposal_id) matches Ok((t, _)) ==> run(t, calls).execute_proposal(
            proposal_id,
        ) == Err::<(TokenView, ReceiptView), TokenError>(
            TokenError::Admin(AdminError::AlreadyExecuted),
        ),
{
    if s.execute_proposal(proposal_id) is Ok {
        let t = s.execute_proposal(proposal_id)->Ok_0.0;
        lemma_execute_keeps_ids(s, proposal_id, proposal_id);
        lemma_executed_through(t, proposal_id, calls);
    }
}

/// Every call keeps proposal identifiers below the counter.
pub proof fn law_ids_below_counter(s: TokenView, call: Call)
    requires
        ids_below_counter(s),
    ensures
        apply(s, call) matches Ok((t, _)) ==> ids_below_counter(t),
{
    lemma_executed_persists(s, call, 0);
}

proof fn lemma_executed_through(s: TokenView, id: u64, calls: Seq<Call>)
    requires
        ids_below_counter(s),
        proposal_executed(s, id),
    ensures
        ids_below_counter(run(s, calls)),
        proposal_executed(run(s, calls), id),
    decreases calls.len(),
{
    if calls.len() > 0 {
        lemma_executed_through(s, id, calls.drop_last());
        lemma_executed_persists(run(s, calls.drop_last()), calls.last(), id);
    }
}

/// The total amount a batch sends to an account.
pub open spec fn amount_sent_to(recipients: Seq<Recipient>, a: AccountId) -> int
    decreases recipients.len(),
{
    if recipients.len() == 0 {
        0
    } else {
        amount_sent_to(recipients.drop_last(), a) + if recipients.last().address == a {
            recipients.last().amount as int
        } else {
            0
        }
    }
}

/// The total amount a batch sends.
pub open spec fn batch_total(recipients: Seq<Recipient>) -> int
    decreases recipients.len(),
{
    if recipients.len() == 0 {
        0
    } else {
        batch_total(recipients.drop_last()) + recipients.last().amount
    }
}

proof fn lemma_batch_credit_per_account(s: TokenView, admin: AccountId, recipients: Seq<Recipient>, a: AccountId)
    requires
        s.batch_credit(admin, recipients) is Ok,
    ensures
        ({
            let (bal, total, _) = s.batch_credit(admin, recipients)->Ok_0;
            &&& balance_in(bal, a) == s.balance_of(a) + amount_sent_to(recipients, a)
            &&& total == batch_total(recipients)
        }),
    decreases recipients.len(),
{
    if recipients.len() > 0 {
        lemma_batch_credit_per_account(s, admin, recipients.drop_last(), a);
    }
}

/// A batch mint raises each account's balance by the sum of the amounts sent
/// to it, and the supply by the batch total.
pub proof fn law_batch_mint_credits(s: TokenView, recipients: Seq<Recipient>, a: AccountId)
    ensures
        s.batch_mint(recipients) matches Ok((t, _)) ==> {
            &&& t.balance_of(a) == s.balance_of(a) + amount_sent_to(recipients, a)
            &&& t.supply_value() == s.supply_value() + batch_total(recipients)
        },
{
    if s.batch_mint(recipients) is Ok {
        lemma_batch_credit_per_account(s, s.access.admin->Some_0, recipients, a);
    }
}

/// A transfer of a positive amount that the sender's balance covers succeeds on
/// an initialized, unpaused contract (unless the recipient's balance would
/// overflow): the sender loses the amount, the recipient gains it, the sender
/// signs, and the supply is unchanged.
pub proof fn law_transfer_succeeds(s: TokenView, from: AccountId, to: AccountId, amount: i128)
    requires
        s.initialized(),
        !s.paused,
        0 < amount <= s.balance_of(from),
        from != to ==> fits(s.balance_of(to) + amount),
    ensures
        s.transfer(from, to, amount) matches Ok((t, rc)) && rc.signers == seq![from]
            && t.supply_value() == s.supply_value() && (from != to ==> t.balance_of(from)
            == s.balance_of(from) - amount && t.balance_of(to) == s.balance_of(to) + amount) && (
        from == to ==> t.balance_of(from) == s.balance_of(from)),
{
}

/// A spender moves a positive amount within its live allowance and the owner's
/// balance on an initialized, unpaused contract (unless the recipient's balance
/// would overflow): the amount moves, the allowance shrinks by exactly the
/// amount, and the spender signs. Spending the whole allowance is allowed.
pub proof fn law_transfer_from_succeeds(
    s: TokenView,
    spender: AccountId,
    from: AccountId,
    to: AccountId,
    amount: i128,
    ledger: u32,
)
    requires
        s.initialized(),
        !s.paused,
        0 < amount,
        amount <= s.live_allowance(from, spender, ledger),
        amount <= s.balance_of(from),
        from != to ==> fits(s.balance_of(to) + amount),
    ensures
        s.transfer_from(spender, from, to, amount, ledger) matches Ok((t, rc)) && rc.signers
            == seq![spender] && t.live_allowance(from, spender, ledger) == s.live_allowance(
            from,
            spender,
            ledger,
        ) - amount && t.supply_value() == s.supply_value() && (from != to ==> t.balance_of(from)
            == s.balance_of(from) - amount && t.balance_of(to) == s.balance_of(to) + amount),
{
}

/// On an initialized, unpaused contract, an approval of any non-negative amount
/// succeeds, is signed by the owner, and the allowance then reads that amount
/// at every ledger up to the expiration (0: none), and nothing after it.
pub proof fn law_approve_succeeds(
    s: TokenView,
    from: AccountId,
    spender: AccountId,
    amount: i128,
    exp_ledger: u32,
    ledger: u32,
)
    requires
        s.initialized(),
        !s.paused,
        amount >= 0,
    ensures
        s.approve(from, spender, amount, exp_ledger) matches Ok((t, rc)) && rc.signers == seq![from]
            && t.live_allowance(from, spender, ledger) == (if exp_ledger > 0 && ledger > exp_ledger {
            0
        } else {
            amount
        }),
{
}

/// A spender burns a positive amount within its live allowance and the owner's
/// balance on an initialized, unpaused contract (unless the supply would
/// underflow): the owner's balance and the supply fall by the amount, and so
/// does the allowance. Burning the whole allowance is allowed.
pub proof fn law_burn_from_succeeds(s: TokenView, spender: AccountId, from: AccountId, amount: i128, ledger: u32)
    requires
        s.initialized(),
        !s.paused,
        0 < amount,
        amount <= s.live_allowance(from, spender, ledger),
        amount <= s.balance_of(from),
        fits(s.supply_value() - amount),
    ensures
        s.burn_from(spender, from, amount, ledger) matches Ok((t, rc)) && rc.signers == seq![spender]
            && t.balance_of(from) == s.balance_of(from) - amount && t.supply_value()
            == s.supply_value() - amount && t.live_allowance(from, spender, ledger)
            == s.live_allowance(from, spender, ledger) - amount,
{
}

/// The owner burns a positive amount its balance covers on an initialized,
/// unpaused contract (unless the supply would underflow): balance and supply
/// fall by the amount.
pub proof fn law_burn_succeeds(s: TokenView, from: AccountId, amount: i128)
    requires
        s.initialized(),
        !s.paused,
        0 < amount <= s.balance_of(from),
        fits(s.supply_value() - amount),
    ensures
        s.burn(from, amount) matches Ok((t, rc)) && rc.signers == seq![from] && t.balance_of(from)
            == s.balance_of(from) - amount && t.supply_value() == s.supply_value() - amount,
{
}

/// The administrator mints any positive amount on an unpaused contract (unless
/// a balance or the supply would overflow): balance and supply grow by it.
pub proof fn law_mint_succeeds(s: TokenView, to: AccountId, amount: i128)
    requires
        s.initialized(),
        !s.paused,
        0 < amount,
        fits(s.balance_of(to) + amount),
        fits(s.supply_value() + amount),
    ensures
        s.mint(to, amount) matches Ok((t, rc)) && rc.signers == seq![s.access.admin->Some_0]
            && t.balance_of(to) == s.balance_of(to) + amount && t.supply_value()
            == s.supply_value() + amount,
{
}

/// The unlock time a lockup has before a lock: that of the stored lockup, 0 when none.
pub open spec fn unlock_time_before(s: TokenView, user: AccountId) -> u64 {
    if s.lockups.contains_key(user) {
        s.lockups[user].unlock_time
    } else {
        0
    }
}

/// The amount a lockup holds before a lock: that of the stored lockup, 0 when none.
pub open spec fn locked_before(s: TokenView, user: AccountId) -> int {
    if s.lockups.contains_key(user) {
        s.lockups[user].amount as int
    } else {
        0
    }
}

/// After a lock, the lockup holds the previous amount plus the locked one, its
/// unlock time is the larger of the previous and the requested one, the user's
/// balance fell by the amount, and any withdrawal before that unlock time is
/// refused while one at or after it succeeds (barring balance overflow).
pub proof fn law_lock_tokens(s: TokenView, user: AccountId, amount: i128, unlock_time: u64, now: u64)
    ensures
        s.lock_tokens(user, amount, unlock_time) matches Ok((t, _)) ==> {
            &&& t.lockups.contains_key(user)
            &&& t.lockups[user].amount == locked_before(s, user) + amount
            &&& t.lockups[user].unlock_time >= unlock_time
            &&& t.lockups[user].unlock_time >= unlock_time_before(s, user)
            &&& (t.lockups[user].unlock_time == unlock_time || t.lockups[user].unlock_time
                == unlock_time_before(s, user))
            &&& t.balance_of(user) == s.balance_of(user) - amount
            &&& now < t.lockups[user].unlock_time ==> t.withdraw_locked(user, now) == Err::<
                (TokenView, ReceiptView),
                TokenError,
            >(TokenError::TokensStillLocked)
            &&& now >= t.lockups[user].unlock_time && fits(t.balance_of(user) + t.lockups[user].amount)
                ==> (t.withdraw_locked(user, now) matches Ok((u, _)) && u.balance_of(user)
                == t.balance_of(user) + t.lockups[user].amount && !u.lockups.contains_key(user))
        },
{
}

/// On an unpaused contract with an administrator, locking an amount the user's
/// balance covers succeeds (barring overflow of the lockup).
pub proof fn law_lock_tokens_succeeds(s: TokenView, user: AccountId, amount: i128, unlock_time: u64)
    requires
        s.initialized(),
        !s.paused,
        0 <= amount <= s.balance_of(user),
        fits(locked_before(s, user) + amount),
    ensures
        s.lock_tokens(user, amount, unlock_time) is Ok,
{
}

/// On an unpaused contract, a lockup whose unlock time has come is withdrawn in
/// full (barring balance overflow), signed by the user.
pub proof fn law_withdraw_succeeds(s: TokenView, user: AccountId, now: u64)
    requires
        !s.paused,
        s.lockups.contains_key(user),
        now >= s.lockups[user].unlock_time,
        fits(s.balance_of(user) + s.lockups[user].amount),
    ensures
        s.withdraw_locked(user, now) matches Ok((t, rc)) && rc.signers == seq![user]
            && t.balance_of(user) == s.balance_of(user) + s.lockups[user].amount
            && !t.lockups.contains_key(user),
{
}

/// On an unpaused contract with a clawback administrator, moving a positive
/// amount the source covers succeeds (unless the target's balance would
/// overflow), signed by the clawback administrator.
pub proof fn law_clawback_succeeds(s: TokenView, from: AccountId, to: AccountId, amount: i128)
    requires
        !s.paused,
        s.clawback_admin is Some,
        0 < amount <= s.balance_of(from),
        from != to ==> fits(s.balance_of(to) + amount),
    ensures
        s.clawback(from, to, amount) matches Ok((t, rc)) && rc.signers == seq![
            s.clawback_admin->Some_0
        ] && (from != to ==> t.balance_of(from) == s.balance_of(from) - amount && t.balance_of(to)
            == s.balance_of(to) + amount),
{
}

/// The refusals of a transfer on an unpaused contract: before initialization;
/// a non-positive amount; an amount above the sender's balance.
pub proof fn law_transfer_refusals(s: TokenView, from: AccountId, to: AccountId, amount: i128)
    requires
        !s.paused,
    ensures
        !s.initialized() ==> s.transfer(from, to, amount) == refuse(TokenError::NotInitialized),
        s.initialized() && amount <= 0 ==> s.transfer(from, to, amount) == refuse(
            TokenError::InvalidAmount,
        ),
        s.initialized() && amount > 0 && amount > s.balance_of(from) ==> s.transfer(from, to, amount)
            == refuse(TokenError::InsufficientBalance),
{
}

/// The refusals of spending through an allowance on an initialized, unpaused
/// contract: more than the live allowance; within it but more than the balance.
pub proof fn law_allowance_spending_refusals(
    s: TokenView,
    spender: AccountId,
    from: AccountId,
    to: AccountId,
    amount: i128,
    ledger: u32,
)
    requires
        s.initialized(),
        !s.paused,
        amount > 0,
    ensures
        amount > s.live_allowance(from, spender, ledger) ==> s.transfer_from(
            spender,
            from,
            to,
            amount,
            ledger,
        ) == refuse(TokenError::InsufficientAllowance) && s.burn_from(spender, from, amount, ledger)
            == refuse(TokenError::InsufficientAllowance),
        amount <= s.live_allowance(from, spender, ledger) && amount > s.balance_of(from)
            ==> s.transfer_from(spender, from, to, amount, ledger) == refuse(
            TokenError::InsufficientBalance,
        ) && s.burn_from(spender, from, amount, ledger) == refuse(TokenError::InsufficientBalance),
{
}

/// The refusals of approve, burn and mint on an initialized, unpaused contract:
/// a negative allowance; a non-positive or uncovered burn; a non-positive mint.
pub proof fn law_amount_refusals(s: TokenView, from: AccountId, spender: AccountId, amount: i128, exp_ledger: u32)
    requires
        s.initialized(),
        !s.paused,
    ensures
        amount < 0 ==> s.approve(from, spender, amount, exp_ledger) == refuse(
            TokenError::InvalidAmount,
        ),
        amount <= 0 ==> s.burn(from, amount) == refuse(TokenError::InvalidAmount) && s.mint(
            from,
            amount,
        ) == refuse(TokenError::InvalidAmount),
        amount > 0 && amount > s.balance_of(from) ==> s.burn(from, amount) == refuse(
            TokenError::InsufficientBalance,
        ),
{
}

/// Initializing an uninitialized contract succeeds, signed by the new
/// administrator, who then holds the Admin role; the metadata reads back as
/// given and the supply is zero.
pub proof fn law_initialize_succeeds(
    s: TokenView,
    admin: AccountId,
    decimal: u32,
    name: Seq<char>,
    symbol: Seq<char>,
    role: Role,
)
    requires
        !s.initialized(),
    ensures
        s.initialize(admin, decimal, name, symbol) matches Ok((t, rc)) && rc.signers == seq![admin]
            && t.access.admin == Some(admin) && t.access.has_role(role, admin) && t.decimals == Some(
            decimal,
        ) && t.name == Some(name) && t.symbol == Some(symbol) && t.supply_value() == 0
            && t.balances == s.balances,
{
}

/// Renaming or changing the symbol on an initialized contract succeeds, signed
/// by the administrator, and the new value reads back.
pub proof fn law_metadata_updates(s: TokenView, new_name: Seq<char>, new_symbol: Seq<char>)
    requires
        s.initialized(),
    ensures
        s.update_name(new_name) matches Ok((t, rc)) && t.name == Some(new_name) && rc.signers == seq![
            s.access.admin->Some_0
        ] && t.balances == s.balances,
        s.update_symbol(new_symbol) matches Ok((t, rc)) && t.symbol == Some(new_symbol)
            && rc.signers == seq![s.access.admin->Some_0] && t.balances == s.balances,
{
}

/// A batch is refused when empty or when some amount is not positive.
pub proof fn law_batch_mint_refusals(s: TokenView, recipients: Seq<Recipient>, i: int)
    requires
        s.initialized(),
        !s.paused,
    ensures
        recipients.len() == 0 ==> s.batch_mint(recipients) == refuse(TokenError::EmptyRecipients),
        0 <= i < recipients.len() && recipients[i].amount <= 0 ==> s.batch_mint(recipients) == refuse(
            TokenError::InvalidAmount,
        ),
{
}

/// A pool member approves a stored, unexecuted proposal it has not yet approved:
/// the approval succeeds, is signed by the member, and the proposal's approvals
/// grow by exactly that member.
pub proof fn law_approve_proposal_succeeds(s: TokenView, admin: AccountId, proposal_id: u64)
    requires
        s.access.is_pool_member(admin),
        s.access.proposals.contains_key(proposal_id),
        !s.access.proposals[proposal_id].executed,
        !s.access.proposals[proposal_id].approvals.contains(admin),
    ensures
        s.approve_proposal(admin, proposal_id) matches Ok((t, rc)) && rc.signers == seq![admin]
            && t.access.proposals[proposal_id].approvals == s.access.proposals[proposal_id].approvals.push(
            admin,
        ) && !t.access.proposals[proposal_id].executed,
{
}

/// A ready, unexecuted proposal to mint `amount` to `to` executes on an unpaused
/// contract (unless the balance or the supply would overflow): it mints the
/// amount and leaves the proposal executed.
pub proof fn law_execute_mint_proposal(s: TokenView, proposal_id: u64, to: AccountId, amount: i128)
    requires
        s.initialized(),
        !s.paused,
        s.access.proposals.contains_key(proposal_id),
        !s.access.proposals[proposal_id].executed,
        s.access.proposals[proposal_id].approvals.len() >= s.access.threshold_value(),
        s.proposal_actions.contains_key(proposal_id),
        s.proposal_actions[proposal_id] == TokenAction::Mint(to, amount),
        0 < amount,
        fits(s.balance_of(to) + amount),
        fits(s.supply_value() + amount),
    ensures
        s.execute_proposal(proposal_id) matches Ok((t, _)) && t.balance_of(to) == s.balance_of(to)
            + amount && t.supply_value() == s.supply_value() + amount
            && t.access.proposals[proposal_id].executed,
{
}

/// A ready, unexecuted proposal to pause or unpause executes, sets the flag
/// accordingly and leaves the proposal executed.
pub proof fn law_execute_pause_proposal(s: TokenView, proposal_id: u64)
    requires
        s.initialized(),
        s.access.proposals.contains_key(proposal_id),
        !s.access.proposals[proposal_id].executed,
        s.access.proposals[proposal_id].approvals.len() >= s.access.threshold_value(),
        s.proposal_actions.contains_key(proposal_id),
        !(s.proposal_actions[proposal_id] is Mint),
    ensures
        s.execute_proposal(proposal_id) matches Ok((t, _)) && t.paused == (s.proposal_actions[proposal_id]
            == TokenAction::Pause) && t.access.proposals[proposal_id].executed,
{
}

/// Configuring a valid pool succeeds for the administrator; an empty pool or a
/// threshold of zero or above the pool size is refused.
pub proof fn law_set_admin_pool(s: TokenView, pool: Seq<AccountId>, threshold: u32)
    requires
        s.initialized(),
    ensures
        pool.len() == 0 ==> s.set_admin_pool(pool, threshold) == refuse(
            TokenError::Admin(AdminError::EmptyPool),
        ),
        pool.len() > 0 && (threshold == 0 || threshold > pool.len()) ==> s.set_admin_pool(
            pool,
            threshold,
        ) == refuse(TokenError::Admin(AdminError::InvalidThreshold)),
        pool.len() > 0 && 0 < threshold <= pool.len() ==> (s.set_admin_pool(pool, threshold) matches Ok((
            t,
            _,
        )) && t.access.admin == Some(pool[0]) && t.access.threshold_value() == threshold
            && t.access.admin_pool() == pool),
{
}

/// The fee of an operation: zero without an enabled configuration; otherwise
/// base fee plus complexity times multiplier, never above the maximum fee, and
/// equal to the maximum whenever the sum exceeds it.
pub proof fn law_fee(s: TokenView, complexity: u32, c: FeeConfig)
    ensures
        (s.fee_config is None || !s.fee_config->Some_0.enabled) ==> s.fee(complexity) == Ok::<
            i128,
            TokenError,
        >(0),
        s.fee_config == Some(c) && c.enabled && fits(c.base_fee + complexity * c.complexity_multiplier)
            ==> (s.fee(complexity) is Ok && s.fee(complexity)->Ok_0 <= c.max_fee && (c.base_fee
            + complexity * c.complexity_multiplier <= c.max_fee ==> s.fee(complexity)->Ok_0
            == c.base_fee + complexity * c.complexity_multiplier) && (c.base_fee + complexity
            * c.complexity_multiplier > c.max_fee ==> s.fee(complexity)->Ok_0 == c.max_fee)),
{
}

/// Charging a positive fee to a payer who is not exempt and can cover it moves
/// the fee to the treasury (unless the treasury's balance would overflow).
pub proof fn law_charge_fee_succeeds(s: TokenView, payer: AccountId, operation_type: u8, complexity: u32)
    requires
        !s.fee_exempt(payer, operation_type),
        s.fee(complexity) matches Ok(f) && f > 0 && f <= s.balance_of(payer),
        s.treasury matches Some(tr) && tr != payer && fits(s.balance_of(tr) + s.fee(complexity)->Ok_0),
    ensures
        s.charge_fee(payer, operation_type, complexity) matches Ok((t, _)) && t.balance_of(payer)
            == s.balance_of(payer) - s.fee(complexity)->Ok_0 && t.balance_of(s.treasury->Some_0)
            == s.balance_of(s.treasury->Some_0) + s.fee(complexity)->Ok_0,
        s.fee_exempt(payer, operation_type) ==> (s.charge_fee(payer, operation_type, complexity) matches Ok((
            t,
            _,
        )) && t == s),
{
}

} // verus!
