use access_control::access_control::AccessControlModule;
use access_control::errors::AccessControlError;
use access_control::types::AccessControlConfig;
use access_control::types::MultiSigConfig;
use access_control::types::ProposalAction;
use access_control::types::ProposalType;
use access_control::types::UserRole;

fn setup_test_env() -> (AccessControlModule, u64, u64, u64) {
    let state = AccessControlModule::new();
    let admin: u64 = 1;
    let user1: u64 = 2;
    let user2: u64 = 3;
    (state, admin, user1, user2)
}

fn setup_initialized_env() -> (AccessControlModule, u64, u64, u64) {
    let (mut state, admin, user1, user2) = setup_test_env();
    state.initialize(admin, None).unwrap();
    (state, admin, user1, user2)
}

#[test]
fn test_initialize() {
    let (mut state, admin, _, _) = setup_test_env();

    let result = state.initialize(admin, None);
    assert!(result.is_ok());

    // Check admin role was set
    assert_eq!(state.get_role(admin), UserRole::Admin);
    assert!(state.is_admin(admin));
    assert!(state.is_initialized());
    assert!(!state.is_paused());
}

#[test]
fn test_initialize_twice_fails() {
    let (mut state, admin, _, _) = setup_test_env();

    state.initialize(admin, None).unwrap();
    let result = state.initialize(admin, None);
    assert_eq!(result.unwrap_err(), AccessControlError::ConfigurationError);
}

#[test]
fn test_set_role_by_admin() {
    let (mut state, admin, user1, _) = setup_initialized_env();

    let result = state.set_role(admin, user1, UserRole::Member, None);
    assert!(result.is_ok());

    assert_eq!(state.get_role(user1), UserRole::Member);
}

#[test]
fn test_set_role_by_non_admin_fails() {
    let (mut state, _admin, user1, user2) = setup_initialized_env();

    let result = state.set_role(user1, user2, UserRole::Member, None);
    assert_eq!(result.unwrap_err(), AccessControlError::AdminRequired);
}

#[test]
fn test_get_role_default_guest() {
    let (state, _admin, user1, _) = setup_initialized_env();

    // User without assigned role should be Guest
    assert_eq!(state.get_role(user1), UserRole::Guest);
}

#[test]
fn test_check_access_hierarchy() {
    let (mut state, admin, user1, user2) = setup_initialized_env();

    // Set roles
    state.set_role(admin, user1, UserRole::Member, None).unwrap();
    state.set_role(admin, user2, UserRole::Admin, None).unwrap();

    // Admin can access everything
    assert!(state.check_access(admin, UserRole::Guest, None).unwrap());
    assert!(state.check_access(admin, UserRole::Member, None).unwrap());
    assert!(state.check_access(admin, UserRole::Admin, None).unwrap());

    // Member can access Guest and Member
    assert!(state.check_access(user1, UserRole::Guest, None).unwrap());
    assert!(state.check_access(user1, UserRole::Member, None).unwrap());
    assert!(!state.check_access(user1, UserRole::Admin, None).unwrap());

    // Guest can only access Guest
    let guest: u64 = 4;
    assert!(state.check_access(guest, UserRole::Guest, None).unwrap());
    assert!(!state.check_access(guest, UserRole::Member, None).unwrap());
    assert!(!state.check_access(guest, UserRole::Admin, None).unwrap());
}

#[test]
fn test_require_access() {
    let (mut state, admin, user1, _) = setup_initialized_env();

    state.set_role(admin, user1, UserRole::Member, None).unwrap();

    // Should succeed for valid access
    assert!(state.require_access(user1, UserRole::Guest, None).is_ok());
    assert!(state.require_access(user1, UserRole::Member, None).is_ok());

    // Should fail for insufficient access
    let result = state.require_access(user1, UserRole::Admin, None);
    assert_eq!(result.unwrap_err(), AccessControlError::InsufficientRole);
}

#[test]
fn test_pause_unpause() {
    let (mut state, admin, user1, _) = setup_initialized_env();

    // Pause contract
    state.pause(admin).unwrap();
    assert!(state.is_paused());

    // Operations should fail when paused
    let result = state.set_role(admin, user1, UserRole::Member, None);
    assert_eq!(result.unwrap_err(), AccessControlError::ContractPaused);

    // Unpause contract
    state.unpause(admin).unwrap();
    assert!(!state.is_paused());

    // Operations should work again
    assert!(state.set_role(admin, user1, UserRole::Member, None).is_ok());
}

#[test]
fn test_pause_by_non_admin_fails() {
    let (mut state, _, user1, _) = setup_initialized_env();

    let result = state.pause(user1);
    assert_eq!(result.unwrap_err(), AccessControlError::AdminRequired);
}

#[test]
fn test_transfer_admin() {
    let (mut state, admin, user1, _) = setup_initialized_env();

    state.propose_admin_transfer(admin, user1, 0).unwrap();
    state.accept_admin_transfer(user1, 0).unwrap();

    // New admin should have admin role
    assert_eq!(state.get_role(user1), UserRole::Admin);
    assert!(state.is_admin(user1));

    // New admin should be able to perform admin operations
    let user2: u64 = 4;
    assert!(state.set_role(user1, user2, UserRole::Member, None).is_ok());
}

#[test]
fn test_remove_role() {
    let (mut state, admin, user1, _) = setup_initialized_env();

    // Set role and then remove it
    state.set_role(admin, user1, UserRole::Member, None).unwrap();
    assert_eq!(state.get_role(user1), UserRole::Member);

    state.remove_role(admin, user1).unwrap();
    assert_eq!(state.get_role(user1), UserRole::Guest);
}

#[test]
fn test_cannot_remove_main_admin_role() {
    let (mut state, admin, _, _) = setup_initialized_env();

    let result = state.remove_role(admin, admin);
    assert_eq!(result.unwrap_err(), AccessControlError::RoleHierarchyViolation);
}

#[test]
fn test_operations_on_uninitialized_system_fail() {
    let (mut state, admin, user1, _) = setup_test_env();

    let result = state.set_role(admin, user1, UserRole::Member, None);
    assert_eq!(result.unwrap_err(), AccessControlError::NotInitialized);

    let result = state.check_access(user1, UserRole::Guest, None);
    assert_eq!(result.unwrap_err(), AccessControlError::NotInitialized);
}

#[test]
fn test_config_management() {
    let (mut state, admin, _, _) = setup_initialized_env();

    let membership_contract: u64 = 50;
    let new_config = AccessControlConfig {
        membership_token_contract: Some(membership_contract),
        require_membership_for_roles: true,
        min_token_balance: 100,
        subscription_contract: None,
        enforce_tier_restrictions: false,
    };

    state.update_config(admin, new_config).unwrap();

    let stored_config = state.get_config();
    assert_eq!(stored_config.membership_token_contract, Some(membership_contract));
    assert!(stored_config.require_membership_for_roles);
    assert_eq!(stored_config.min_token_balance, 100);
}

// The membership token contract is reached by the hosting layer; its reply
// arrives as the `membership` argument. The reference balance below plays
// the part of a token contract that reports 1000 for every account.
const MOCK_BALANCE: i128 = 1000;

#[test]
fn test_membership_token_integration() {
    let (mut state, admin, user1, _) = setup_initialized_env();

    let membership_token_id: u64 = 60;

    // Configure access control to require membership
    let config = AccessControlConfig {
        membership_token_contract: Some(membership_token_id),
        require_membership_for_roles: true,
        min_token_balance: 500,
        subscription_contract: None,
        enforce_tier_restrictions: false,
    };

    state.update_config(admin, config).unwrap();

    // Setting Member role should work (mock returns 1000 tokens)
    let result = state.set_role(admin, user1, UserRole::Member, Some(MOCK_BALANCE));
    assert!(result.is_ok());

    // Check access should also work
    let result = state.check_access(user1, UserRole::Member, Some(MOCK_BALANCE));
    assert!(result.is_ok());
    assert!(result.unwrap());
}

#[test]
fn test_membership_token_insufficient_balance() {
    let (mut state, admin, user1, _) = setup_initialized_env();

    let membership_token_id: u64 = 60;

    // Configure access control to require more tokens than mock provides
    let config = AccessControlConfig {
        membership_token_contract: Some(membership_token_id),
        require_membership_for_roles: true,
        min_token_balance: 2000, // Mock only returns 1000
        subscription_contract: None,
        enforce_tier_restrictions: false,
    };

    state.update_config(admin, config).unwrap();

    // Setting Member role should fail due to insufficient tokens
    let result = state.set_role(admin, user1, UserRole::Member, Some(MOCK_BALANCE));
    assert_eq!(result.unwrap_err(), AccessControlError::InsufficientMembership);
}

#[test]
fn test_membership_not_required_for_guest_role() {
    let (mut state, admin, user1, _) = setup_initialized_env();

    let membership_token_id: u64 = 60;

    // Configure access control to require membership
    let config = AccessControlConfig {
        membership_token_contract: Some(membership_token_id),
        require_membership_for_roles: true,
        min_token_balance: 2000, // More than mock provides
        subscription_contract: None,
        enforce_tier_restrictions: false,
    };

    state.update_config(admin, config).unwrap();

    // Setting Guest role should work even without sufficient tokens
    let result = state.set_role(admin, user1, UserRole::Guest, Some(MOCK_BALANCE));
    assert!(result.is_ok());

    // Guest access should also work
    let result = state.check_access(user1, UserRole::Guest, Some(MOCK_BALANCE));
    assert!(result.is_ok());
    assert!(result.unwrap());
}

#[test]
fn test_config_update_by_non_admin_fails() {
    let (mut state, _, user1, _) = setup_initialized_env();

    let config = AccessControlConfig::default();
    let result = state.update_config(user1, config);
    assert_eq!(result.unwrap_err(), AccessControlError::AdminRequired);
}

#[test]
fn test_blacklist_functionality() {
    let (mut state, admin, user1, _) = setup_initialized_env();

    assert!(!state.is_blacklisted(user1));

    state.blacklist_user(admin, user1).unwrap();
    assert!(state.is_blacklisted(user1));

    let result = state.set_role(admin, user1, UserRole::Member, None);
    assert_eq!(result.unwrap_err(), AccessControlError::Unauthorized);

    state.unblacklist_user(admin, user1).unwrap();
    assert!(!state.is_blacklisted(user1));

    let result = state.set_role(admin, user1, UserRole::Member, None);
    assert!(result.is_ok());
}

#[test]
fn test_admin_self_removal_prevention() {
    let (mut state, admin, _, _) = setup_initialized_env();

    let result = state.remove_role(admin, admin);
    assert_eq!(result.unwrap_err(), AccessControlError::RoleHierarchyViolation);
}

#[test]
fn test_admin_transfer_security() {
    let (mut state, admin, user1, _) = setup_initialized_env();

    let result = state.propose_admin_transfer(admin, admin, 0);
    assert_eq!(result.unwrap_err(), AccessControlError::InvalidAddress);

    state.propose_admin_transfer(admin, user1, 0).unwrap();
    state.accept_admin_transfer(user1, 0).unwrap();

    assert_eq!(state.get_role(user1), UserRole::Admin);
    assert_eq!(state.get_role(admin), UserRole::Guest);

    let result = state.set_role(admin, user1, UserRole::Member, None);
    assert_eq!(result.unwrap_err(), AccessControlError::AdminRequired);
}

#[test]
fn test_blacklisted_user_access_denied() {
    let (mut state, admin, user1, _) = setup_initialized_env();

    state.set_role(admin, user1, UserRole::Member, None).unwrap();
    assert!(state.check_access(user1, UserRole::Member, None).unwrap());

    state.blacklist_user(admin, user1).unwrap();
    assert!(!state.check_access(user1, UserRole::Member, None).unwrap());
    assert!(!state.check_access(user1, UserRole::Guest, None).unwrap());
}

#[test]
fn test_non_admin_cannot_blacklist() {
    let (mut state, _, user1, user2) = setup_initialized_env();

    let result = state.blacklist_user(user1, user2);
    assert_eq!(result.unwrap_err(), AccessControlError::AdminRequired);
}

#[test]
fn test_multisig_initialization() {
    let mut state = AccessControlModule::new();
    let admin1: u64 = 1;
    let admin2: u64 = 2;
    let admin3: u64 = 3;

    let admins = vec![admin1, admin2, admin3];
    let result = state.initialize_multisig(admins, 2, None);
    assert!(result.is_ok());

    assert!(state.is_multisig_enabled());
    let config = state.get_multisig_config().unwrap();
    assert_eq!(config.required_signatures, 2);
    assert_eq!(config.admins.len(), 3);

    assert_eq!(state.get_role(admin1), UserRole::Admin);
    assert_eq!(state.get_role(admin2), UserRole::Admin);
    assert_eq!(state.get_role(admin3), UserRole::Admin);
}

#[test]
fn test_multisig_proposal_creation_and_approval() {
    let mut state = AccessControlModule::new();
    let admin1: u64 = 1;
    let admin2: u64 = 2;
    let admin3: u64 = 3;
    let user: u64 = 10;

    let admins = vec![admin1, admin2, admin3];
    state.initialize_multisig(admins, 2, None).unwrap();

    let action = ProposalAction::SetRole(user, UserRole::Member);
    let proposal_id = state.create_proposal(admin1, action, 0, None).unwrap();

    state.approve_proposal(admin2, proposal_id, 0, None).unwrap();

    assert_eq!(state.get_role(user), UserRole::Member);
}

#[test]
fn test_two_step_admin_transfer() {
    let (mut state, admin, user1, _) = setup_initialized_env();

    state.propose_admin_transfer(admin, user1, 0).unwrap();

    let pending = state.get_pending_admin_transfer().unwrap();
    assert_eq!(pending.proposed_admin, user1);
    assert_eq!(pending.proposer, admin);

    state.accept_admin_transfer(user1, 0).unwrap();

    assert_eq!(state.get_role(user1), UserRole::Admin);
    assert_eq!(state.get_role(admin), UserRole::Guest);
    assert!(state.get_pending_admin_transfer().is_none());
}

#[test]
fn test_admin_transfer_cancellation() {
    let (mut state, admin, user1, _) = setup_initialized_env();

    state.propose_admin_transfer(admin, user1, 0).unwrap();

    assert!(state.get_pending_admin_transfer().is_some());

    state.cancel_admin_transfer(admin).unwrap();

    assert!(state.get_pending_admin_transfer().is_none());
    assert_eq!(state.get_role(admin), UserRole::Admin);
}

#[test]
fn test_multisig_prevents_direct_operations() {
    let mut state = AccessControlModule::new();
    let admin1: u64 = 1;
    let admin2: u64 = 2;

    let admins = vec![admin1, admin2];
    state.initialize_multisig(admins, 2, None).unwrap();

    let config = AccessControlConfig::default();
    let result = state.update_config(admin1, config);
    assert_eq!(result.unwrap_err(), AccessControlError::AdminRequired);

    let result = state.pause(admin1);
    assert_eq!(result.unwrap_err(), AccessControlError::AdminRequired);
}

#[test]
fn test_insufficient_multisig_approvals() {
    let mut state = AccessControlModule::new();
    let admin1: u64 = 1;
    let admin2: u64 = 2;
    let admin3: u64 = 3;
    let user: u64 = 10;

    let admins = vec![admin1, admin2, admin3];
    state.initialize_multisig(admins, 3, None).unwrap();

    let action = ProposalAction::SetRole(user, UserRole::Member);
    let proposal_id = state.create_proposal(admin1, action, 0, None).unwrap();

    state.approve_proposal(admin2, proposal_id, 0, None).unwrap();

    assert_eq!(state.get_role(user), UserRole::Guest);

    state.approve_proposal(admin3, proposal_id, 0, None).unwrap();

    assert_eq!(state.get_role(user), UserRole::Member);
}

#[test]
fn test_set_role_event_emitted() {
    let mut state = AccessControlModule::new();
    let admin: u64 = 1;
    let user1: u64 = 2;

    state.initialize(admin, None).unwrap();
    state.set_role(admin, user1, UserRole::Member, None).unwrap();

    // Verify role was set
    let role = state.get_role(user1);
    assert_eq!(role, UserRole::Member, "Role should have been set to Member");
}

#[test]
fn test_pause_unpause_events_emitted() {
    let mut state = AccessControlModule::new();
    let admin: u64 = 1;

    state.initialize(admin, None).unwrap();
    state.pause(admin).unwrap();

    // Verify contract is paused
    assert!(state.is_paused());

    state.unpause(admin).unwrap();

    // Verify contract is unpaused
    assert!(!state.is_paused());
}

#[test]
fn test_admin_transfer_events_emitted() {
    let mut state = AccessControlModule::new();
    let admin: u64 = 1;
    let user1: u64 = 2;

    state.initialize(admin, None).unwrap();
    state.propose_admin_transfer(admin, user1, 0).unwrap();

    // Verify proposal was created
    state.accept_admin_transfer(user1, 0).unwrap();

    // Verify admin was transferred
    assert!(state.is_admin(user1));
}

#[test]
fn test_proposal_events_emitted() {
    let mut state = AccessControlModule::new();
    let admin1: u64 = 1;
    let admin2: u64 = 2;
    let user: u64 = 10;

    let admins = vec![admin1, admin2];
    state.initialize_multisig(admins, 2, None).unwrap();

    let action = ProposalAction::SetRole(user, UserRole::Member);
    let proposal_id = state.create_proposal(admin1, action, 0, None).unwrap();

    // Approve proposal
    state.approve_proposal(admin2, proposal_id, 0, None).unwrap();

    // Verify role was set after approval
    assert_eq!(state.get_role(user), UserRole::Member);
}

#[test]
fn test_enhanced_multisig_with_thresholds() {
    let mut state = AccessControlModule::new();
    let admins = vec![1u64, 2, 3, 4];
    state.initialize_multisig(admins, 2, None).unwrap();

    let config = state.get_multisig_config().unwrap();
    assert_eq!(config.required_signatures, 2);
    assert_eq!(config.critical_threshold, 3);
    assert_eq!(config.emergency_threshold, 4);
    assert_eq!(config.time_lock_duration, 86400);
    assert_eq!(config.max_pending_proposals, 50);
}

#[test]
fn test_proposal_type_classification() {
    let user: u64 = 10;
    let config = AccessControlConfig::default();

    assert_eq!(
        ProposalAction::SetRole(user, UserRole::Member).classify_type(),
        ProposalType::Standard
    );

    assert_eq!(ProposalAction::UpdateConfig(config).classify_type(), ProposalType::Critical);

    assert_eq!(
        ProposalAction::EmergencyPause(String::from("reason")).classify_type(),
        ProposalType::Emergency
    );
}

#[test]
fn test_critical_proposal_requires_higher_threshold() {
    let mut state = AccessControlModule::new();
    let admin1: u64 = 1;
    let admin2: u64 = 2;
    let admin3: u64 = 3;
    let admin4: u64 = 4;

    let admins = vec![admin1, admin2, admin3, admin4];
    state.initialize_multisig(admins, 2, None).unwrap();

    // Create a critical proposal (Pause)
    let action = ProposalAction::Pause;
    let proposal_id = state.create_proposal(admin1, action, 0, None).unwrap();

    let proposal = state.get_proposal(proposal_id).unwrap();
    assert_eq!(proposal.proposal_type, ProposalType::Critical);
    assert_eq!(proposal.required_signatures, 3); // Critical threshold

    // Fast forward time past time-lock (24 hours + 1 second)
    let now: u64 = 86401;

    // 2 approvals should not be enough (proposer already approved)
    state.approve_proposal(admin2, proposal_id, now, None).unwrap();

    // Proposal should still be pending
    let proposal = state.get_proposal(proposal_id).unwrap();
    assert!(!proposal.executed);

    // 3rd approval should execute it
    state.approve_proposal(admin3, proposal_id, now, None).unwrap();

    let proposal = state.get_proposal(proposal_id).unwrap();
    assert!(proposal.executed);
    assert!(state.is_paused());
}

#[test]
fn test_emergency_proposal_requires_all_signatures() {
    let mut state = AccessControlModule::new();
    let admin1: u64 = 1;
    let admin2: u64 = 2;
    let admin3: u64 = 3;
    let admin4: u64 = 4;

    let admins = vec![admin1, admin2, admin3, admin4];
    state.initialize_multisig(admins, 2, None).unwrap();

    // Create an emergency proposal
    let action = ProposalAction::EmergencyPause(String::from("Security breach"));
    let proposal_id = state.create_proposal(admin1, action, 0, None).unwrap();

    let proposal = state.get_proposal(proposal_id).unwrap();
    assert_eq!(proposal.proposal_type, ProposalType::Emergency);
    assert_eq!(proposal.required_signatures, 4); // Emergency threshold = all admins

    // Need all 4 approvals
    state.approve_proposal(admin2, proposal_id, 0, None).unwrap();
    state.approve_proposal(admin3, proposal_id, 0, None).unwrap();

    let proposal = state.get_proposal(proposal_id).unwrap();
    assert!(!proposal.executed);

    state.approve_proposal(admin4, proposal_id, 0, None).unwrap();

    let proposal = state.get_proposal(proposal_id).unwrap();
    assert!(proposal.executed);
    assert!(state.is_paused());
    assert!(state.is_emergency_mode());
}

#[test]
fn test_proposal_rejection() {
    let mut state = AccessControlModule::new();
    let admin1: u64 = 1;
    let admin2: u64 = 2;
    let admin3: u64 = 3;

    let admins = vec![admin1, admin2, admin3];
    state.initialize_multisig(admins, 2, None).unwrap();

    let user: u64 = 10;
    let action = ProposalAction::SetRole(user, UserRole::Member);
    let proposal_id = state.create_proposal(admin1, action, 0, None).unwrap();

    // Reject proposal
    let result = state.reject_proposal(admin2, proposal_id, 0);
    assert!(result.is_ok());

    let proposal = state.get_proposal(proposal_id).unwrap();
    assert_eq!(proposal.rejections.len(), 1);

    // Another rejection should trigger rejection threshold
    let result = state.reject_proposal(admin3, proposal_id, 0);
    // This should fail with ProposalRejected and clean up the proposal
    assert_eq!(result.unwrap_err(), AccessControlError::ProposalRejected);

    // Proposal should be removed
    assert!(state.get_proposal(proposal_id).is_none());
}

#[test]
fn test_proposal_cancellation() {
    let mut state = AccessControlModule::new();
    let admin1: u64 = 1;
    let admin2: u64 = 2;

    let admins = vec![admin1, admin2];
    state.initialize_multisig(admins, 2, None).unwrap();

    let user: u64 = 10;
    let action = ProposalAction::SetRole(user, UserRole::Member);
    let proposal_id = state.create_proposal(admin1, action, 0, None).unwrap();

    // Proposer can cancel
    state.cancel_proposal(admin1, proposal_id).unwrap();

    // Proposal should be removed
    assert!(state.get_proposal(proposal_id).is_none());
}

#[test]
fn test_non_proposer_cannot_cancel() {
    let mut state = AccessControlModule::new();
    let admin1: u64 = 1;
    let admin2: u64 = 2;

    let admins = vec![admin1, admin2];
    state.initialize_multisig(admins, 2, None).unwrap();

    let user: u64 = 10;
    let action = ProposalAction::SetRole(user, UserRole::Member);
    let proposal_id = state.create_proposal(admin1, action, 0, None).unwrap();

    // Non-proposer cannot cancel
    let result = state.cancel_proposal(admin2, proposal_id);
    assert_eq!(result.unwrap_err(), AccessControlError::Unauthorized);
}

#[test]
fn test_proposal_expiration_cleanup() {
    let mut state = AccessControlModule::new();
    let admin1: u64 = 1;
    let admin2: u64 = 2;

    let admins = vec![admin1, admin2];
    state.initialize_multisig(admins, 2, None).unwrap();

    let user: u64 = 10;
    let action = ProposalAction::SetRole(user, UserRole::Member);
    let proposal_id = state.create_proposal(admin1, action, 1000, None).unwrap();

    // Fast forward time past expiry (7 days + 1)
    let now: u64 = 1000 + 604801;

    // Try to approve expired proposal
    let result = state.approve_proposal(admin2, proposal_id, now, None);
    assert_eq!(result.unwrap_err(), AccessControlError::ProposalExpired);

    // Proposal should be cleaned up
    assert!(state.get_proposal(proposal_id).is_none());
}

#[test]
fn test_cleanup_multiple_expired_proposals() {
    let mut state = AccessControlModule::new();
    let admin1: u64 = 1;
    let admin2: u64 = 2;

    let admins = vec![admin1, admin2];
    state.initialize_multisig(admins, 2, None).unwrap();

    // Create multiple proposals
    let user: u64 = 10;

    let _proposal_id1 = state
        .create_proposal(admin1, ProposalAction::SetRole(user, UserRole::Member), 1000, None)
        .unwrap();
    let _proposal_id2 = state
        .create_proposal(admin1, ProposalAction::SetRole(user, UserRole::Member), 1000, None)
        .unwrap();
    let _proposal_id3 = state
        .create_proposal(admin1, ProposalAction::SetRole(user, UserRole::Member), 1000, None)
        .unwrap();

    let stats = state.get_proposal_stats();
    assert_eq!(stats.pending_count, 3);

    // Fast forward time past expiry
    let now: u64 = 1000 + 604801;

    // Clean up expired proposals
    let cleaned = state.cleanup_expired_proposals(now).unwrap();
    assert_eq!(cleaned, 3);

    let stats = state.get_proposal_stats();
    assert_eq!(stats.pending_count, 0);
    assert_eq!(stats.total_expired, 3);
}

#[test]
fn test_proposal_stats_tracking() {
    let mut state = AccessControlModule::new();
    let admin1: u64 = 1;
    let admin2: u64 = 2;

    let admins = vec![admin1, admin2];
    state.initialize_multisig(admins, 2, None).unwrap();

    let user: u64 = 10;
    let action = ProposalAction::SetRole(user, UserRole::Member);

    // Create proposal
    let proposal_id = state.create_proposal(admin1, action, 0, None).unwrap();

    let stats = state.get_proposal_stats();
    assert_eq!(stats.total_created, 1);
    assert_eq!(stats.pending_count, 1);
    assert_eq!(stats.total_executed, 0);

    // Execute proposal
    state.approve_proposal(admin2, proposal_id, 0, None).unwrap();

    let stats = state.get_proposal_stats();
    assert_eq!(stats.total_created, 1);
    assert_eq!(stats.pending_count, 0);
    assert_eq!(stats.total_executed, 1);
}

#[test]
fn test_max_pending_proposals_limit() {
    let mut state = AccessControlModule::new();
    let admin1: u64 = 1;
    let admin2: u64 = 2;

    let admins = vec![admin1, admin2];
    state.initialize_multisig(admins.clone(), 2, None).unwrap();

    // Lower the pending-proposal cap for the test, as a replacement
    // committee configuration would.
    let ms_config = MultiSigConfig {
        admins,
        required_signatures: 2,
        critical_threshold: 2,
        emergency_threshold: 2,
        time_lock_duration: 86400,
        max_pending_proposals: 3,
        proposal_expiry_duration: 604800,
    };
    state.multisig = Some(ms_config);

    let user: u64 = 10;
    let action = ProposalAction::SetRole(user, UserRole::Member);

    // Create 3 proposals (should succeed)
    state.create_proposal(admin1, action.clone(), 0, None).unwrap();
    state.create_proposal(admin1, action.clone(), 0, None).unwrap();
    state.create_proposal(admin1, action.clone(), 0, None).unwrap();

    // 4th proposal should fail
    let result = state.create_proposal(admin1, action.clone(), 0, None);
    assert_eq!(result.unwrap_err(), AccessControlError::MaxProposalsReached);
}

#[test]
fn test_cannot_approve_twice() {
    let mut state = AccessControlModule::new();
    let admin1: u64 = 1;
    let admin2: u64 = 2;
    let admin3: u64 = 3;

    let admins = vec![admin1, admin2, admin3];
    state.initialize_multisig(admins, 2, None).unwrap();

    let user: u64 = 10;
    let action = ProposalAction::SetRole(user, UserRole::Member);
    let proposal_id = state.create_proposal(admin1, action, 0, None).unwrap();

    // Proposer already approved, try to approve again
    let result = state.approve_proposal(admin1, proposal_id, 0, None);
    assert_eq!(result.unwrap_err(), AccessControlError::AlreadyApproved);
}

#[test]
fn test_cannot_approve_after_rejection() {
    let mut state = AccessControlModule::new();
    let admin1: u64 = 1;
    let admin2: u64 = 2;

    let admins = vec![admin1, admin2];
    state.initialize_multisig(admins, 2, None).unwrap();

    let user: u64 = 10;
    let action = ProposalAction::SetRole(user, UserRole::Member);
    let proposal_id = state.create_proposal(admin1, action, 0, None).unwrap();

    // Reject proposal
    state.reject_proposal(admin2, proposal_id, 0).unwrap();

    // Try to approve after rejecting
    let result = state.approve_proposal(admin2, proposal_id, 0, None);
    assert_eq!(result.unwrap_err(), AccessControlError::AlreadyRejected);
}

#[test]
fn test_batch_blacklist_proposal() {
    let mut state = AccessControlModule::new();
    let admin1: u64 = 1;
    let admin2: u64 = 2;
    let admin3: u64 = 3;

    let admins = vec![admin1, admin2, admin3];
    state.initialize_multisig(admins, 2, None).unwrap();

    let user1: u64 = 10;
    let user2: u64 = 11;
    let user3: u64 = 12;

    let users_to_blacklist = vec![user1, user2, user3];
    let action = ProposalAction::BatchBlacklist(users_to_blacklist);

    let proposal_id = state.create_proposal(admin1, action, 0, None).unwrap();

    // Fast forward time past time-lock (24 hours + 1 second)
    let now: u64 = 86401;

    // This is a critical operation, needs critical_threshold (3)
    state.approve_proposal(admin2, proposal_id, now, None).unwrap();
    state.approve_proposal(admin3, proposal_id, now, None).unwrap();

    // All users should be blacklisted
    assert!(state.is_blacklisted(user1));
    assert!(state.is_blacklisted(user2));
    assert!(state.is_blacklisted(user3));
}

#[test]
fn test_add_remove_admin_via_proposal() {
    let mut state = AccessControlModule::new();
    let admin1: u64 = 1;
    let admin2: u64 = 2;
    let admin3: u64 = 3;

    let admins = vec![admin1, admin2];
    state.initialize_multisig(admins, 2, None).unwrap();

    // Add new admin
    let action = ProposalAction::AddAdmin(admin3);
    let proposal_id = state.create_proposal(admin1, action, 0, None).unwrap();

    // Fast forward time past time-lock (24 hours + 1 second)
    let now: u64 = 86401;

    // Critical operation
    state.approve_proposal(admin2, proposal_id, now, None).unwrap();

    // Verify admin3 was added
    let config = state.get_multisig_config().unwrap();
    assert!(config.admins.contains(&admin3));
    assert_eq!(state.get_role(admin3), UserRole::Admin);
}

#[test]
fn test_duplicate_admin_prevented() {
    let mut state = AccessControlModule::new();
    let admin1: u64 = 1;

    let admins = vec![admin1, admin1];
    let result = state.initialize_multisig(admins, 2, None);
    assert_eq!(result.unwrap_err(), AccessControlError::DuplicateAdmin);
}

#[test]
fn test_get_pending_proposals_list() {
    let mut state = AccessControlModule::new();
    let admin1: u64 = 1;
    let admin2: u64 = 2;

    let admins = vec![admin1, admin2];
    state.initialize_multisig(admins, 2, None).unwrap();

    let user: u64 = 10;

    let id1 = state
        .create_proposal(admin1, ProposalAction::SetRole(user, UserRole::Member), 0, None)
        .unwrap();
    let id2 = state
        .create_proposal(admin1, ProposalAction::SetRole(user, UserRole::Member), 0, None)
        .unwrap();

    let pending = state.get_pending_proposals();
    assert_eq!(pending.len(), 2);
    assert!(pending.contains(&id1));
    assert!(pending.contains(&id2));

    // Execute one
    state.approve_proposal(admin2, id1, 0, None).unwrap();

    let pending = state.get_pending_proposals();
    assert_eq!(pending.len(), 1);
    assert!(pending.contains(&id2));
}
