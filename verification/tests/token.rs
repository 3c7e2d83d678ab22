use bc_forge_token::error::{AdminError, TokenError};
use bc_forge_token::events::Event;
use bc_forge_token::token::BcForgeToken;
use bc_forge_token::types::{FeeConfig, FeeExemption, Recipient, Role, TokenAction};

const ADMIN: u64 = 1;
const ALICE: u64 = 2;
const BOB: u64 = 3;
const CAROL: u64 = 4;

fn token() -> BcForgeToken {
    let mut t = BcForgeToken::new();
    let rc = t.initialize(ADMIN, 7, "bc-forge".to_string(), "SFG".to_string()).unwrap();
    assert_eq!(rc.signers, vec![ADMIN]);
    t
}

fn funded() -> BcForgeToken {
    let mut t = token();
    t.mint(ALICE, 1000).unwrap();
    t
}

#[test]
fn initialize_sets_metadata_once() {
    let mut t = token();
    assert_eq!(t.decimals(), Ok(7));
    assert_eq!(t.name().unwrap(), "bc-forge");
    assert_eq!(t.symbol().unwrap(), "SFG");
    assert_eq!(t.supply(), Ok(0));
    assert!(t.has_role(Role::Admin, ADMIN));
    assert!(matches!(
        t.initialize(BOB, 2, "x".to_string(), "y".to_string()),
        Err(TokenError::AlreadyInitialized)
    ));
    assert_eq!(t.access_state().get_admin(), Ok(ADMIN));
}

#[test]
fn queries_before_initialization_are_refused() {
    let mut t = BcForgeToken::new();
    assert_eq!(t.balance(ALICE), Err(TokenError::NotInitialized));
    assert_eq!(t.supply(), Err(TokenError::NotInitialized));
    assert_eq!(t.decimals(), Err(TokenError::NotInitialized));
    assert!(t.name().is_err());
    assert!(t.symbol().is_err());
    assert_eq!(t.allowance(ALICE, BOB, 0), Err(TokenError::NotInitialized));
    assert!(matches!(t.mint(ALICE, 5), Err(TokenError::Admin(AdminError::AdminNotSet))));
    assert!(matches!(t.transfer(ALICE, BOB, 5), Err(TokenError::NotInitialized)));
    assert!(matches!(t.upgrade([0u8; 32]), Err(TokenError::NotInitialized)));
}

#[test]
fn mint_credits_balance_and_supply() {
    let mut t = token();
    let rc = t.mint(ALICE, 500).unwrap();
    assert_eq!(rc.signers, vec![ADMIN]);
    assert!(matches!(
        rc.events[..],
        [Event::Mint { admin: ADMIN, to: ALICE, amount: 500, balance: 500, supply: 500 }]
    ));
    t.mint(ALICE, 250).unwrap();
    assert_eq!(t.balance(ALICE), Ok(750));
    assert_eq!(t.supply(), Ok(750));
}

#[test]
fn mint_rejects_non_positive_amounts() {
    let mut t = token();
    assert!(matches!(t.mint(ALICE, 0), Err(TokenError::InvalidAmount)));
    assert!(matches!(t.mint(ALICE, -3), Err(TokenError::InvalidAmount)));
    assert_eq!(t.supply(), Ok(0));
}

#[test]
fn mint_overflow_is_refused() {
    let mut t = token();
    t.mint(ALICE, i128::MAX).unwrap();
    assert!(matches!(t.mint(BOB, 1), Err(TokenError::ArithmeticOverflow)));
    assert_eq!(t.balance(BOB), Ok(0));
}

#[test]
fn transfer_moves_exact_amount() {
    let mut t = funded();
    t.mint(CAROL, 5).unwrap();
    let rc = t.transfer(ALICE, BOB, 300).unwrap();
    assert_eq!(rc.signers, vec![ALICE]);
    assert!(matches!(rc.events[..], [Event::Transfer { from: ALICE, to: BOB, amount: 300 }]));
    assert_eq!(t.balance(ALICE), Ok(700));
    assert_eq!(t.balance(BOB), Ok(300));
    assert_eq!(t.balance(CAROL), Ok(5));
    assert_eq!(t.supply(), Ok(1005));
}

#[test]
fn transfer_refusals_change_nothing() {
    let mut t = funded();
    assert!(matches!(t.transfer(ALICE, BOB, 0), Err(TokenError::InvalidAmount)));
    assert!(matches!(t.transfer(ALICE, BOB, 1001), Err(TokenError::InsufficientBalance)));
    assert_eq!(t.balance(ALICE), Ok(1000));
    assert_eq!(t.balance(BOB), Ok(0));
}

#[test]
fn transfer_to_self_keeps_balance() {
    let mut t = funded();
    t.transfer(ALICE, ALICE, 400).unwrap();
    assert_eq!(t.balance(ALICE), Ok(1000));
    assert!(matches!(t.transfer(ALICE, ALICE, 1001), Err(TokenError::InsufficientBalance)));
}

#[test]
fn paused_contract_blocks_spending() {
    let mut t = funded();
    let rc = t.pause().unwrap();
    assert_eq!(rc.signers, vec![ADMIN]);
    assert!(matches!(rc.events[..], [Event::Paused { admin: ADMIN }]));
    assert!(matches!(t.transfer(ALICE, BOB, 1), Err(TokenError::ContractPaused)));
    assert!(matches!(t.mint(ALICE, 1), Err(TokenError::ContractPaused)));
    assert!(matches!(t.burn(ALICE, 1), Err(TokenError::ContractPaused)));
    assert!(matches!(t.transfer_from(BOB, ALICE, BOB, 1, 0), Err(TokenError::ContractPaused)));
    assert!(matches!(t.burn_from(BOB, ALICE, 1, 0), Err(TokenError::ContractPaused)));
    assert!(matches!(
        t.batch_mint(vec![Recipient { address: BOB, amount: 1 }]),
        Err(TokenError::ContractPaused)
    ));
    assert!(matches!(t.approve(ALICE, BOB, 1, 0), Err(TokenError::ContractPaused)));
    t.set_clawback_admin(CAROL).unwrap();
    assert!(matches!(t.clawback(ALICE, BOB, 1), Err(TokenError::ContractPaused)));
    assert!(matches!(t.lock_tokens(ALICE, 1, 0), Err(TokenError::ContractPaused)));
    assert!(matches!(t.withdraw_locked(ALICE, 0), Err(TokenError::ContractPaused)));
    assert_eq!(t.balance(ALICE), Ok(1000));
    assert_eq!(t.supply(), Ok(1000));
    let rc = t.unpause().unwrap();
    assert!(matches!(rc.events[..], [Event::Unpaused { admin: ADMIN }]));
    t.transfer(ALICE, BOB, 1).unwrap();
    assert_eq!(t.balance(BOB), Ok(1));
}

#[test]
fn approve_then_allowance_until_expiry() {
    let mut t = funded();
    let rc = t.approve(ALICE, BOB, 200, 50).unwrap();
    assert_eq!(rc.signers, vec![ALICE]);
    assert_eq!(t.allowance(ALICE, BOB, 10), Ok(200));
    assert_eq!(t.allowance(ALICE, BOB, 50), Ok(200));
    assert_eq!(t.allowance(ALICE, BOB, 51), Ok(0));
    t.approve(ALICE, BOB, 70, 0).unwrap();
    assert_eq!(t.allowance(ALICE, BOB, 1_000_000), Ok(70));
    assert_eq!(t.allowance(BOB, ALICE, 0), Ok(0));
    assert!(matches!(t.approve(ALICE, BOB, -1, 0), Err(TokenError::InvalidAmount)));
}

#[test]
fn transfer_from_spends_allowance() {
    let mut t = funded();
    t.approve(ALICE, BOB, 200, 100).unwrap();
    let rc = t.transfer_from(BOB, ALICE, CAROL, 150, 20).unwrap();
    assert_eq!(rc.signers, vec![BOB]);
    assert!(matches!(
        rc.events[..],
        [Event::TransferFrom { spender: BOB, from: ALICE, to: CAROL, amount: 150, remaining: 50 }]
    ));
    assert_eq!(t.allowance(ALICE, BOB, 20), Ok(50));
    assert_eq!(t.allowance(ALICE, BOB, 101), Ok(0));
    assert_eq!(t.balance(ALICE), Ok(850));
    assert_eq!(t.balance(CAROL), Ok(150));
    assert!(matches!(t.transfer_from(BOB, ALICE, CAROL, 51, 20), Err(TokenError::InsufficientAllowance)));
    assert!(matches!(t.transfer_from(BOB, ALICE, CAROL, 10, 101), Err(TokenError::InsufficientAllowance)));
}

#[test]
fn transfer_from_needs_balance() {
    let mut t = funded();
    t.approve(BOB, ALICE, 500, 0).unwrap();
    assert!(matches!(t.transfer_from(ALICE, BOB, CAROL, 10, 0), Err(TokenError::InsufficientBalance)));
    assert_eq!(t.allowance(BOB, ALICE, 0), Ok(500));
}

#[test]
fn burn_reduces_balance_and_supply() {
    let mut t = funded();
    let rc = t.burn(ALICE, 400).unwrap();
    assert!(matches!(rc.events[..], [Event::Burn { from: ALICE, amount: 400, balance: 600, supply: 600 }]));
    assert_eq!(t.balance(ALICE), Ok(600));
    assert_eq!(t.supply(), Ok(600));
    assert!(matches!(t.burn(ALICE, 601), Err(TokenError::InsufficientBalance)));
    assert!(matches!(t.burn(ALICE, 0), Err(TokenError::InvalidAmount)));
}

#[test]
fn mint_then_burn_restores() {
    let mut t = funded();
    t.mint(BOB, 77).unwrap();
    t.burn(BOB, 77).unwrap();
    assert_eq!(t.balance(BOB), Ok(0));
    assert_eq!(t.supply(), Ok(1000));
}

#[test]
fn burn_from_uses_allowance() {
    let mut t = funded();
    t.approve(ALICE, BOB, 100, 0).unwrap();
    let rc = t.burn_from(BOB, ALICE, 60, 0).unwrap();
    assert_eq!(rc.signers, vec![BOB]);
    assert_eq!(t.allowance(ALICE, BOB, 0), Ok(40));
    assert_eq!(t.balance(ALICE), Ok(940));
    assert_eq!(t.supply(), Ok(940));
    assert!(matches!(t.burn_from(BOB, ALICE, 41, 0), Err(TokenError::InsufficientAllowance)));
    t.approve(CAROL, BOB, 100, 0).unwrap();
    assert!(matches!(t.burn_from(BOB, CAROL, 1, 0), Err(TokenError::InsufficientBalance)));
}

#[test]
fn batch_mint_credits_all_recipients() {
    let mut t = funded();
    let rc = t
        .batch_mint(vec![
            Recipient { address: BOB, amount: 10 },
            Recipient { address: CAROL, amount: 20 },
            Recipient { address: BOB, amount: 5 },
        ])
        .unwrap();
    assert_eq!(rc.signers, vec![ADMIN]);
    assert_eq!(rc.events.len(), 3);
    assert!(matches!(rc.events[2], Event::Mint { to: BOB, amount: 5, balance: 15, supply: 1035, .. }));
    assert!(matches!(rc.events[0], Event::Mint { to: BOB, amount: 10, balance: 10, supply: 1010, .. }));
    assert_eq!(t.balance(BOB), Ok(15));
    assert_eq!(t.balance(CAROL), Ok(20));
    assert_eq!(t.supply(), Ok(1035));
}

#[test]
fn batch_mint_is_all_or_nothing() {
    let mut t = funded();
    assert!(matches!(t.batch_mint(vec![]), Err(TokenError::EmptyRecipients)));
    assert!(matches!(
        t.batch_mint(vec![Recipient { address: BOB, amount: 10 }, Recipient { address: CAROL, amount: 0 }]),
        Err(TokenError::InvalidAmount)
    ));
    assert!(matches!(
        t.batch_mint(vec![Recipient { address: BOB, amount: 10 }, Recipient { address: CAROL, amount: i128::MAX }]),
        Err(TokenError::ArithmeticOverflow)
    ));
    assert_eq!(t.balance(BOB), Ok(0));
    assert_eq!(t.supply(), Ok(1000));
}

#[test]
fn lock_and_withdraw() {
    let mut t = funded();
    let rc = t.lock_tokens(ALICE, 300, 100).unwrap();
    assert!(matches!(rc.events[..], [Event::Locked { user: ALICE, amount: 300, unlock_time: 100 }]));
    assert_eq!(t.balance(ALICE), Ok(700));
    t.lock_tokens(ALICE, 100, 50).unwrap();
    assert_eq!(t.balance(ALICE), Ok(600));
    assert!(matches!(t.withdraw_locked(ALICE, 99), Err(TokenError::TokensStillLocked)));
    let rc = t.withdraw_locked(ALICE, 100).unwrap();
    assert_eq!(rc.signers, vec![ALICE]);
    assert!(matches!(rc.events[..], [Event::WithdrawLocked { user: ALICE, amount: 400 }]));
    assert_eq!(t.balance(ALICE), Ok(1000));
    assert!(matches!(t.withdraw_locked(ALICE, 200), Err(TokenError::NoLockup)));
    assert!(matches!(t.lock_tokens(BOB, 1, 5), Err(TokenError::InsufficientBalance)));
    assert_eq!(t.supply(), Ok(1000));
}

#[test]
fn two_step_ownership() {
    let mut t = token();
    assert!(matches!(t.accept_ownership(), Err(TokenError::NoPendingAdmin)));
    assert!(matches!(t.cancel_transfer(), Err(TokenError::NoPendingAdmin)));
    t.propose_owner(BOB).unwrap();
    assert_eq!(t.pending_owner(), Some(BOB));
    let rc = t.accept_ownership().unwrap();
    assert_eq!(rc.signers, vec![BOB]);
    assert!(matches!(rc.events[..], [Event::OwnershipAccepted { old_admin: ADMIN, new_admin: BOB }]));
    assert_eq!(t.pending_owner(), None);
    assert_eq!(t.access_state().get_admin(), Ok(BOB));
    assert!(!t.has_role(Role::Admin, BOB));
}

#[test]
fn cancel_pending_ownership() {
    let mut t = token();
    t.propose_owner(CAROL).unwrap();
    let rc = t.cancel_transfer().unwrap();
    assert!(matches!(rc.events[..], [Event::OwnershipCancelled { admin: ADMIN, pending_admin: CAROL }]));
    assert_eq!(t.pending_owner(), None);
    assert_eq!(t.access_state().get_admin(), Ok(ADMIN));
}

#[test]
fn transfer_ownership_at_once() {
    let mut t = token();
    let rc = t.transfer_ownership(BOB).unwrap();
    assert_eq!(rc.signers, vec![ADMIN, BOB]);
    assert_eq!(t.access_state().get_admin(), Ok(BOB));
    assert!(t.has_role(Role::Admin, BOB));
}

#[test]
fn clawback_moves_funds() {
    let mut t = funded();
    assert!(matches!(t.clawback(ALICE, BOB, 5), Err(TokenError::ClawbackAdminNotSet)));
    t.set_clawback_admin(CAROL).unwrap();
    assert!(matches!(t.clawback(ALICE, BOB, 0), Err(TokenError::InvalidAmount)));
    let rc = t.clawback(ALICE, BOB, 100).unwrap();
    assert_eq!(rc.signers, vec![CAROL]);
    assert_eq!(t.balance(ALICE), Ok(900));
    assert_eq!(t.balance(BOB), Ok(100));
}

#[test]
fn roles_grant_and_revoke() {
    let mut t = token();
    let rc = t.grant_role(Role::Minter, BOB);
    assert_eq!(rc.signers, vec![ADMIN]);
    assert!(t.has_role(Role::Minter, BOB));
    t.revoke_role(Role::Minter, BOB).unwrap();
    assert!(!t.has_role(Role::Minter, BOB));
}

#[test]
fn proposal_mint_executes_once() {
    let mut t = token();
    t.set_admin_pool(vec![ADMIN, BOB], 2).unwrap();
    let (id, rc) = t.propose_action(ADMIN, TokenAction::Mint(CAROL, 42), "mint".to_string()).unwrap();
    assert_eq!(id, 0);
    assert_eq!(rc.signers, vec![ADMIN]);
    assert!(matches!(t.execute_proposal(id), Err(TokenError::Admin(AdminError::ThresholdNotMet))));
    t.approve_proposal(BOB, id).unwrap();
    let rc = t.execute_proposal(id).unwrap();
    assert!(rc.signers.is_empty());
    assert!(matches!(rc.events[..], [Event::Mint { to: CAROL, amount: 42, .. }]));
    assert_eq!(t.balance(CAROL), Ok(42));
    assert!(matches!(t.execute_proposal(id), Err(TokenError::Admin(AdminError::AlreadyExecuted))));
    assert!(matches!(t.execute_proposal(9), Err(TokenError::Admin(AdminError::ProposalNotFound))));
}

#[test]
fn proposal_pause_and_unpause() {
    let mut t = token();
    let (id, _) = t.propose_action(ADMIN, TokenAction::Pause, "pause".to_string()).unwrap();
    let rc = t.execute_proposal(id).unwrap();
    assert_eq!(rc.signers, vec![ADMIN]);
    assert!(matches!(t.mint(ALICE, 1), Err(TokenError::ContractPaused)));
    let (id2, _) = t.propose_action(ADMIN, TokenAction::Mint(ALICE, 3), "mint".to_string()).unwrap();
    assert!(matches!(t.execute_proposal(id2), Err(TokenError::ContractPaused)));
    let (id3, _) = t.propose_action(ADMIN, TokenAction::Unpause, "resume".to_string()).unwrap();
    t.execute_proposal(id3).unwrap();
    t.execute_proposal(id2).unwrap();
    assert_eq!(t.balance(ALICE), Ok(3));
}

#[test]
fn proposal_requires_pool_member() {
    let mut t = token();
    assert!(matches!(
        t.propose_action(BOB, TokenAction::Pause, "x".to_string()),
        Err(TokenError::Admin(AdminError::NotPoolMember))
    ));
    assert!(matches!(
        t.set_admin_pool(vec![], 1),
        Err(TokenError::Admin(AdminError::EmptyPool))
    ));
    let rc = t.set_admin_pool(vec![BOB], 1).unwrap();
    assert_eq!(rc.signers, vec![ADMIN, ADMIN]);
    assert_eq!(t.access_state().get_admin(), Ok(BOB));
}

#[test]
fn metadata_updates_report_old_values() {
    let mut t = token();
    let rc = t.update_name("forge".to_string()).unwrap();
    match &rc.events[..] {
        [Event::UpdateName { admin, old_name, new_name }] => {
            assert_eq!(*admin, ADMIN);
            assert_eq!(old_name, "bc-forge");
            assert_eq!(new_name, "forge");
        },
        _ => panic!("unexpected events"),
    }
    assert_eq!(t.name().unwrap(), "forge");
    t.update_symbol("FRG".to_string()).unwrap();
    assert_eq!(t.symbol().unwrap(), "FRG");
    let rc = t.upgrade([7u8; 32]).unwrap();
    assert!(matches!(rc.events[..], [Event::Upgrade { admin: ADMIN, new_wasm_hash }] if new_wasm_hash == [7u8; 32]));
    assert_eq!(BcForgeToken::version(), "1.1.0");
}

#[test]
fn fee_is_capped_and_charged() {
    let mut t = funded();
    assert_eq!(t.calculate_fee(1, 10), Ok(0));
    t.set_fee_config(FeeConfig { enabled: true, base_fee: 5, complexity_multiplier: 3, max_fee: 20 });
    assert_eq!(t.calculate_fee(1, 2), Ok(11));
    assert_eq!(t.calculate_fee(1, 10), Ok(20));
    assert!(matches!(t.charge_fee(ALICE, 1, 2), Err(TokenError::FeeNotConfigured)));
    t.set_treasury(CAROL);
    let rc = t.charge_fee(ALICE, 1, 2).unwrap();
    assert!(matches!(rc.events[..], [Event::FeeCharged { payer: ALICE, treasury: CAROL, amount: 11 }]));
    assert_eq!(t.balance(ALICE), Ok(989));
    assert_eq!(t.balance(CAROL), Ok(11));
    assert!(matches!(t.charge_fee(BOB, 1, 2), Err(TokenError::InsufficientFeeBalance)));
    t.set_fee_exemption(BOB, FeeExemption { exemption_type: 1 });
    assert!(t.is_fee_exempt(BOB, 1));
    assert!(!t.is_fee_exempt(BOB, 2));
    assert!(t.charge_fee(BOB, 1, 2).unwrap().events.is_empty());
    t.set_fee_exemption(ALICE, FeeExemption { exemption_type: 0 });
    assert!(t.is_fee_exempt(ALICE, 9));
    t.set_fee_config(FeeConfig { enabled: false, base_fee: 5, complexity_multiplier: 3, max_fee: 20 });
    assert_eq!(t.calculate_fee(1, 2), Ok(0));
    t.set_fee_config(FeeConfig { enabled: true, base_fee: i128::MAX, complexity_multiplier: 1, max_fee: 20 });
    assert_eq!(t.calculate_fee(1, 2), Err(TokenError::ArithmeticOverflow));
}

#[test]
fn error_codes_are_stable() {
    assert_eq!(TokenError::NotInitialized.code(), 1);
    assert_eq!(TokenError::ContractPaused.code(), 2);
    assert_eq!(TokenError::InsufficientBalance.code(), 3);
    assert_eq!(TokenError::InsufficientAllowance.code(), 4);
    assert_eq!(TokenError::InvalidAmount.code(), 5);
    assert_eq!(TokenError::Admin(AdminError::ThresholdNotMet).code(), 107);
}

#[test]
fn snapshot_round_trip_keeps_state() {
    let mut t = funded();
    t.approve(ALICE, BOB, 30, 9).unwrap();
    t.lock_tokens(ALICE, 100, 5).unwrap();
    t.set_admin_pool(vec![ADMIN, BOB], 2).unwrap();
    let (id, _) = t.propose_action(ADMIN, TokenAction::Pause, "p".to_string()).unwrap();
    t.set_fee_exemption(CAROL, FeeExemption { exemption_type: 3 });
    let snap = t.to_snapshot();
    let mut u = BcForgeToken::from_snapshot(&snap);
    assert_eq!(u.balance(ALICE), Ok(900));
    assert_eq!(u.allowance(ALICE, BOB, 9), Ok(30));
    assert_eq!(u.supply(), Ok(1000));
    assert!(u.is_fee_exempt(CAROL, 3));
    assert!(u.has_role(Role::Admin, BOB));
    assert_eq!(u.name().unwrap(), "bc-forge");
    u.approve_proposal(BOB, id).unwrap();
    u.execute_proposal(id).unwrap();
    assert!(matches!(u.transfer(ALICE, BOB, 1), Err(TokenError::ContractPaused)));
    assert!(matches!(u.withdraw_locked(ALICE, 5), Err(TokenError::ContractPaused)));
    u.unpause().unwrap();
    let rc = u.withdraw_locked(ALICE, 5).unwrap();
    assert!(matches!(rc.events[..], [Event::WithdrawLocked { user: ALICE, amount: 100 }]));
}

#[test]
fn supply_matches_holdings_after_many_operations() {
    let mut t = funded();
    t.mint(BOB, 50).unwrap();
    t.transfer(ALICE, CAROL, 120).unwrap();
    t.lock_tokens(CAROL, 20, 10).unwrap();
    t.burn(BOB, 5).unwrap();
    t.approve(ALICE, BOB, 40, 0).unwrap();
    t.burn_from(BOB, ALICE, 10, 0).unwrap();
    t.batch_mint(vec![Recipient { address: ALICE, amount: 3 }]).unwrap();
    let held: i128 = [ALICE, BOB, CAROL].iter().map(|a| t.balance(*a).unwrap()).sum::<i128>() + 20;
    assert_eq!(t.supply(), Ok(held));
    assert_eq!(held, 1038);
}

#[test]
fn negative_lock_returns_tokens_from_the_lockup() {
    let mut t = funded();
    t.lock_tokens(ALICE, 100, 5).unwrap();
    t.lock_tokens(ALICE, -40, 0).unwrap();
    assert_eq!(t.balance(ALICE), Ok(940));
    let rc = t.withdraw_locked(ALICE, 5).unwrap();
    assert!(matches!(rc.events[..], [Event::WithdrawLocked { user: ALICE, amount: 60 }]));
    assert_eq!(t.balance(ALICE), Ok(1000));
}

#[test]
fn grant_then_revoke_restores_roles() {
    let mut t = token();
    assert!(!t.has_role(Role::Minter, CAROL));
    t.grant_role(Role::Minter, CAROL);
    t.revoke_role(Role::Minter, CAROL).unwrap();
    assert!(!t.has_role(Role::Minter, CAROL));
    assert!(matches!(
        BcForgeToken::new().revoke_role(Role::Minter, CAROL),
        Err(TokenError::Admin(AdminError::AdminNotSet))
    ));
}

#[test]
fn approve_twice_is_refused() {
    let mut t = token();
    t.set_admin_pool(vec![ADMIN, BOB, CAROL], 3).unwrap();
    let (id, _) = t.propose_action(BOB, TokenAction::Unpause, "u".to_string()).unwrap();
    t.approve_proposal(CAROL, id).unwrap();
    assert!(matches!(t.approve_proposal(CAROL, id), Err(TokenError::Admin(AdminError::AlreadyApproved))));
    assert!(matches!(t.approve_proposal(99, id), Err(TokenError::Admin(AdminError::NotPoolMember))));
}

#[test]
fn execute_without_token_action_is_refused() {
    let mut t = token();
    let mut access = t.to_snapshot();
    access.access.proposals.push((
        5,
        bc_forge_token::admin::Proposal {
            creator: ADMIN,
            action_type: bc_forge_token::types::CriticalAction::MintTokens,
            description: "raw".to_string(),
            approvals: vec![ADMIN],
            executed: false,
        },
    ));
    t = BcForgeToken::from_snapshot(&access);
    assert!(matches!(t.execute_proposal(5), Err(TokenError::ProposalActionNotFound)));
}

#[test]
fn pause_holds_until_unpause_proposal() {
    let mut t = funded();
    let (id, _) = t.propose_action(ADMIN, TokenAction::Unpause, "resume".to_string()).unwrap();
    t.pause().unwrap();
    t.update_name("n".to_string()).unwrap();
    t.grant_role(Role::Minter, BOB);
    assert!(matches!(t.transfer(ALICE, BOB, 1), Err(TokenError::ContractPaused)));
    t.execute_proposal(id).unwrap();
    t.transfer(ALICE, BOB, 1).unwrap();
    assert_eq!(t.balance(BOB), Ok(1));
}

#[test]
fn executed_proposal_stays_executed() {
    let mut t = token();
    let (id, _) = t.propose_action(ADMIN, TokenAction::Mint(BOB, 4), "m".to_string()).unwrap();
    t.execute_proposal(id).unwrap();
    let (id2, _) = t.propose_action(ADMIN, TokenAction::Mint(BOB, 6), "m2".to_string()).unwrap();
    assert_ne!(id, id2);
    t.execute_proposal(id2).unwrap();
    assert!(matches!(t.execute_proposal(id), Err(TokenError::Admin(AdminError::AlreadyExecuted))));
    assert_eq!(t.balance(BOB), Ok(10));
}
