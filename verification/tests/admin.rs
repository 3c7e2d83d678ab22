use bc_forge_token::admin::AdminState;
use bc_forge_token::error::AdminError;
use bc_forge_token::types::{CriticalAction, Role};

const ADMIN1: u64 = 11;
const ADMIN2: u64 = 12;
const ADMIN3: u64 = 13;

fn pool_of(members: &[u64], threshold: u32) -> AdminState {
    let mut s = AdminState::new();
    let signer = s.set_admin_pool(members.to_vec(), threshold).unwrap();
    assert_eq!(signer, None);
    s
}

#[test]
fn test_set_and_get_admin() {
    let mut s = AdminState::new();
    assert!(!s.has_admin());
    assert_eq!(s.get_admin(), Err(AdminError::AdminNotSet));
    let signer = s.set_admin(ADMIN1);
    assert_eq!(signer, ADMIN1);
    assert_eq!(s.get_admin(), Ok(ADMIN1));
    assert!(s.has_role(Role::Admin, ADMIN1));
}

#[test]
fn test_admin_pool_storage() {
    let s = pool_of(&[ADMIN1, ADMIN2, ADMIN3], 2);
    assert!(s.is_multi_sig_enabled());
    assert_eq!(s.get_threshold(), 2);
    assert_eq!(s.get_admin_pool().len(), 3);
    assert!(s.is_pool_member(ADMIN1));
    assert!(s.has_role(Role::Admin, ADMIN2));
    assert_eq!(s.get_admin(), Ok(ADMIN1));
}

#[test]
fn test_multi_sig() {
    let mut s = pool_of(&[ADMIN1, ADMIN2, ADMIN3], 2);
    let id = s.create_proposal(ADMIN1, CriticalAction::ChangeAdmin, "test".to_string()).unwrap();
    assert_eq!(s.is_proposal_ready(id), Ok(false));
    s.approve_proposal(ADMIN2, id).unwrap();
    assert_eq!(s.is_proposal_ready(id), Ok(true));
}

#[test]
fn test_multi_sig_with_critical_actions() {
    let mut s = pool_of(&[ADMIN1, ADMIN2, ADMIN3], 2);
    assert_eq!(s.set_multi_sig_required(CriticalAction::ChangeAdmin, true), Ok(ADMIN1));
    assert!(s.is_multi_sig_required(CriticalAction::ChangeAdmin));
    let id = s
        .create_proposal(ADMIN1, CriticalAction::ChangeAdmin, "Change admin to new address".to_string())
        .unwrap();
    assert_eq!(s.is_proposal_ready(id), Ok(false));
    s.approve_proposal(ADMIN2, id).unwrap();
    assert_eq!(s.is_proposal_ready(id), Ok(true));
    assert_eq!(s.execute_proposal(id), Ok(CriticalAction::ChangeAdmin));
    assert_eq!(s.is_proposal_ready(id), Ok(true));
}

#[test]
fn test_multi_sig_threshold_not_met() {
    let mut s = pool_of(&[ADMIN1, ADMIN2, ADMIN3], 3);
    let id = s.create_proposal(ADMIN1, CriticalAction::UpgradeContract, "Upgrade contract".to_string()).unwrap();
    assert_eq!(s.is_proposal_ready(id), Ok(false));
    s.approve_proposal(ADMIN2, id).unwrap();
    assert_eq!(s.is_proposal_ready(id), Ok(false));
    s.approve_proposal(ADMIN3, id).unwrap();
    assert_eq!(s.is_proposal_ready(id), Ok(true));
}

#[test]
fn test_multi_sig_different_action_types() {
    let mut s = pool_of(&[ADMIN1, ADMIN2], 2);
    let id1 = s.create_proposal(ADMIN1, CriticalAction::ChangeAdmin, "Change admin".to_string()).unwrap();
    let id2 = s.create_proposal(ADMIN1, CriticalAction::PauseContract, "Pause contract".to_string()).unwrap();
    let id3 = s.create_proposal(ADMIN1, CriticalAction::MintTokens, "Mint tokens".to_string()).unwrap();
    assert_eq!((id1, id2, id3), (0, 1, 2));
    s.approve_proposal(ADMIN2, id1).unwrap();
    s.approve_proposal(ADMIN2, id2).unwrap();
    s.approve_proposal(ADMIN2, id3).unwrap();
    assert_eq!(s.is_proposal_ready(id1), Ok(true));
    assert_eq!(s.is_proposal_ready(id2), Ok(true));
    assert_eq!(s.is_proposal_ready(id3), Ok(true));
    assert_eq!(s.execute_proposal(id1), Ok(CriticalAction::ChangeAdmin));
    assert_eq!(s.execute_proposal(id2), Ok(CriticalAction::PauseContract));
    assert_eq!(s.execute_proposal(id3), Ok(CriticalAction::MintTokens));
}

#[test]
fn test_multi_sig_fallback_to_single_admin() {
    let mut s = AdminState::new();
    s.set_admin(ADMIN1);
    s.set_multi_sig_required(CriticalAction::ChangeAdmin, true).unwrap();
    assert!(!s.is_multi_sig_enabled());
    assert_eq!(s.require_multi_sig(CriticalAction::ChangeAdmin, 0), Ok(Some(ADMIN1)));
}

#[test]
fn test_require_multi_sig_rejects_unapproved_proposal() {
    let mut s = pool_of(&[ADMIN1, ADMIN2], 2);
    s.set_multi_sig_required(CriticalAction::PauseContract, true).unwrap();
    let id = s.create_proposal(ADMIN1, CriticalAction::PauseContract, "Pause".to_string()).unwrap();
    assert_eq!(
        s.require_multi_sig(CriticalAction::PauseContract, id),
        Err(AdminError::ThresholdNotMet)
    );
}

#[test]
fn test_grant_role_without_admin_needs_no_signer() {
    let mut s = AdminState::new();
    assert_eq!(s.grant_role(Role::Minter, 5), None);
    assert!(s.has_role(Role::Minter, 5));
    assert!(!s.has_role(Role::Admin, 5));
    s.set_admin(ADMIN1);
    assert_eq!(s.grant_role(Role::Minter, 6), Some(ADMIN1));
}

#[test]
fn test_admin_role_implies_every_role() {
    let mut s = AdminState::new();
    s.set_admin(ADMIN1);
    assert!(s.has_role(Role::Minter, ADMIN1));
    assert_eq!(s.require_role(Role::Minter, ADMIN1), Ok(ADMIN1));
    assert_eq!(s.require_role(Role::Minter, 99), Err(AdminError::MissingRole));
}

#[test]
fn test_revoke_role_needs_admin() {
    let mut s = AdminState::new();
    s.grant_role(Role::Minter, 5);
    assert_eq!(s.revoke_role(Role::Minter, 5), Err(AdminError::AdminNotSet));
    assert!(s.has_role(Role::Minter, 5));
    s.set_admin(ADMIN1);
    assert_eq!(s.revoke_role(Role::Minter, 5), Ok(ADMIN1));
    assert!(!s.has_role(Role::Minter, 5));
}

#[test]
fn test_set_admin_pool_rejections() {
    let mut s = AdminState::new();
    assert_eq!(s.set_admin_pool(vec![], 1), Err(AdminError::EmptyPool));
    assert_eq!(s.set_admin_pool(vec![ADMIN1], 0), Err(AdminError::InvalidThreshold));
    assert_eq!(s.set_admin_pool(vec![ADMIN1], 2), Err(AdminError::InvalidThreshold));
    assert!(!s.is_multi_sig_enabled());
    s.set_admin(ADMIN3);
    assert_eq!(s.set_admin_pool(vec![ADMIN1, ADMIN2], 1), Ok(Some(ADMIN3)));
    assert_eq!(s.get_admin(), Ok(ADMIN1));
}

#[test]
fn test_default_pool_and_threshold() {
    let mut s = AdminState::new();
    assert_eq!(s.get_admin_pool(), Vec::<u64>::new());
    assert_eq!(s.get_threshold(), 1);
    s.set_admin(ADMIN2);
    assert_eq!(s.get_admin_pool(), vec![ADMIN2]);
    assert!(s.is_pool_member(ADMIN2));
    assert!(!s.is_pool_member(ADMIN1));
    assert_eq!(s.require_pool_member(ADMIN1), Err(AdminError::NotPoolMember));
    assert_eq!(s.require_pool_member(ADMIN2), Ok(ADMIN2));
}

#[test]
fn test_proposal_errors() {
    let mut s = pool_of(&[ADMIN1, ADMIN2], 2);
    assert_eq!(s.create_proposal(99, CriticalAction::BurnTokens, "x".to_string()), Err(AdminError::NotPoolMember));
    assert_eq!(s.approve_proposal(ADMIN2, 7), Err(AdminError::ProposalNotFound));
    let id = s.create_proposal(ADMIN1, CriticalAction::BurnTokens, "burn".to_string()).unwrap();
    assert_eq!(s.approve_proposal(99, id), Err(AdminError::NotPoolMember));
    assert_eq!(s.approve_proposal(ADMIN1, id), Err(AdminError::AlreadyApproved));
    assert_eq!(s.mark_executed(id), Err(AdminError::ThresholdNotMet));
    s.approve_proposal(ADMIN2, id).unwrap();
    assert_eq!(
        s.validate_proposal_for_action(CriticalAction::MintTokens, id),
        Err(AdminError::ActionMismatch)
    );
    assert_eq!(s.validate_proposal_for_action(CriticalAction::BurnTokens, id), Ok(()));
    s.mark_executed(id).unwrap();
    assert_eq!(s.mark_executed(id), Err(AdminError::AlreadyExecuted));
    assert_eq!(s.approve_proposal(ADMIN2, id), Err(AdminError::AlreadyExecuted));
    assert_eq!(s.execute_proposal(id), Err(AdminError::AlreadyExecuted));
    assert_eq!(s.is_proposal_ready(42), Err(AdminError::ProposalNotFound));
    let p = s.get_proposal(id).unwrap();
    assert_eq!(p.creator, ADMIN1);
    assert_eq!(p.description, "burn");
    assert_eq!(p.approvals, vec![ADMIN1, ADMIN2]);
    assert!(p.executed);
    assert!(s.get_proposal(42).is_err());
}

#[test]
fn test_require_multi_sig_with_caller() {
    let mut s = pool_of(&[ADMIN1, ADMIN2], 1);
    s.set_multi_sig_required(CriticalAction::ChangeParameters, true).unwrap();
    let id = s.create_proposal(ADMIN1, CriticalAction::ChangeParameters, "p".to_string()).unwrap();
    assert_eq!(s.require_multi_sig_with_caller(CriticalAction::ChangeParameters, id, ADMIN2), Ok(None));
    assert_eq!(
        s.require_multi_sig_with_caller(CriticalAction::ChangeParameters, id, 99),
        Err(AdminError::NotPoolMember)
    );
    assert_eq!(s.require_multi_sig_with_caller(CriticalAction::TransferOwnership, id, 99), Ok(Some(ADMIN1)));
    assert_eq!(s.set_multi_sig_required(CriticalAction::ChangeParameters, false), Ok(ADMIN1));
    assert!(!s.is_multi_sig_required(CriticalAction::ChangeParameters));
}
