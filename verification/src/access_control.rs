//! The access-control engine: one state value per deployment, holding every
//! persisted record, with the operations that gate and mutate it.
//!
//! Outside concerns are passed in as plain values: the current time of the
//! logical clock arrives as a `now` argument, and the result of the
//! cross-contract membership-balance call arrives as an `Option<i128>`
//! (`None` when the call failed or could not be made). Every operation is
//! atomic: a call that returns an error leaves the state unchanged, with the
//! single documented exception of lazy expiry cleanup.

use std::collections::HashMap;
use std::collections::HashSet;

use vstd::prelude::*;

use crate::errors::AccessControlError;
use crate::types::AccessControlConfig;
use crate::types::MultiSigConfig;
use crate::types::PendingAdminTransfer;
use crate::types::PendingProposal;
use crate::types::ProposalStats;
use crate::types::SubscriptionTierLevel;
use crate::types::UserSubscriptionStatus;
use crate::types::UserRole;
use crate::types::distinct_seq;

verus! {

broadcast use vstd::std_specs::hash::group_hash_axioms;

/// How long a proposed single-admin handover stays acceptable, in seconds
/// (24 hours).
pub const ADMIN_TRANSFER_EXPIRY: u64 = 86400;

/// The persisted state of one deployment of the access-control engine.
///
/// A value of this type is well formed when [`Self::wf`] holds; every
/// operation requires and preserves it.
pub struct AccessControlModule {
    /// Whether `initialize` or `initialize_multisig` has run.
    pub initialized: bool,
    /// Whether the contract is paused.
    pub paused: bool,
    /// Whether an emergency pause set the emergency flag.
    pub emergency_mode: bool,
    /// The single admin, when not in committee mode.
    pub admin: Option<u64>,
    /// Policy toggles for membership and tier enforcement.
    pub config: AccessControlConfig,
    /// Committee configuration; `Some` exactly in committee mode.
    pub multisig: Option<MultiSigConfig>,
    /// Stored role per account; unset accounts are `Guest`.
    pub roles: HashMap<u64, UserRole>,
    /// Blacklisted accounts.
    pub blacklist: HashSet<u64>,
    /// Cached subscription tier per account; unset accounts are `Free`.
    pub tiers: HashMap<u64, SubscriptionTierLevel>,
    /// Tier required to hold the `Guest` role.
    pub required_tier_guest: SubscriptionTierLevel,
    /// Tier required to hold the `Member` role.
    pub required_tier_member: SubscriptionTierLevel,
    /// Tier required to hold the `Admin` role.
    pub required_tier_admin: SubscriptionTierLevel,
    /// Counted access attempts per account, for audit.
    pub access_attempts: HashMap<u64, u32>,
    /// Proposal records by id; executed proposals are retained.
    pub proposals: HashMap<u64, PendingProposal>,
    /// Ids of proposals that are live (created, not yet terminal).
    pub pending_list: Vec<u64>,
    /// The id the next proposal will take.
    pub proposal_counter: u64,
    /// Running counters over the proposal lifecycle.
    pub stats: ProposalStats,
    /// The in-flight single-admin handover, if any.
    pub pending_admin_transfer: Option<PendingAdminTransfer>,
}

/// A counter bumped by one, stopping at the type's maximum.
pub open spec fn sat_inc(x: u32) -> u32 {
    if x == u32::MAX {
        x
    } else {
        (x + 1) as u32
    }
}

/// The membership-policy test applied when *checking* access: when the
/// policy requires membership for the required role and a token contract is
/// configured, the reported balance must exist and reach the minimum;
/// otherwise the test passes.
pub open spec fn membership_check_ok(
    config: AccessControlConfig,
    required_role: UserRole,
    membership: Option<i128>,
) -> bool {
    if config.require_membership_for_roles && (required_role is Member || required_role is Admin)
        && config.membership_token_contract is Some {
        match membership {
            Some(b) => b >= config.min_token_balance,
            None => false,
        }
    } else {
        true
    }
}

/// The membership-policy test applied when *assigning* a role. Unlike the
/// check path, a missing token contract is an error here.
pub open spec fn spec_validate_assignment(
    config: AccessControlConfig,
    role: UserRole,
    membership: Option<i128>,
) -> Result<(), AccessControlError> {
    if config.require_membership_for_roles && (role is Member || role is Admin) {
        if config.membership_token_contract is Some {
            match membership {
                Some(b) => if b < config.min_token_balance {
                    Err(AccessControlError::InsufficientMembership)
                } else {
                    Ok(())
                },
                None => Err(AccessControlError::MembershipTokenCallFailed),
            }
        } else {
            Err(AccessControlError::MembershipTokenNotSet)
        }
    } else {
        Ok(())
    }
}

impl AccessControlModule {
    /// The stored role of an account, `Guest` when never set.
    pub open spec fn role_of(self, user: u64) -> UserRole {
        if self.roles@.contains_key(user) {
            self.roles@[user]
        } else {
            UserRole::Guest
        }
    }

    /// The cached tier of an account, `Free` when never set.
    pub open spec fn tier_of(self, user: u64) -> SubscriptionTierLevel {
        if self.tiers@.contains_key(user) {
            self.tiers@[user]
        } else {
            SubscriptionTierLevel::Free
        }
    }

    /// The tier an account must hold to carry the given role.
    pub open spec fn required_tier_of(self, role: UserRole) -> SubscriptionTierLevel {
        match role {
            UserRole::Guest => self.required_tier_guest,
            UserRole::Member => self.required_tier_member,
            UserRole::Admin => self.required_tier_admin,
        }
    }

    /// Whether the account is blacklisted.
    pub open spec fn blacklisted(self, user: u64) -> bool {
        self.blacklist@.contains(user)
    }

    /// The audit counter of access attempts for an account.
    pub open spec fn attempts_of(self, user: u64) -> u32 {
        if self.access_attempts@.contains_key(user) {
            self.access_attempts@[user]
        } else {
            0
        }
    }

    /// Whether a committee governs this deployment.
    pub open spec fn spec_multisig_enabled(self) -> bool {
        self.multisig is Some
    }

    /// Who may act as admin: a committee member in committee mode, otherwise
    /// only the recorded single admin. Holding the `Admin` role alone does
    /// not confer admin authority.
    pub open spec fn admin_ok(self, caller: u64) -> bool {
        match self.multisig {
            Some(c) => c.admins@.contains(caller),
            None => self.admin == Some(caller),
        }
    }

    /// The full access decision: not blacklisted, role high enough, and the
    /// membership policy satisfied for the required role.
    pub open spec fn spec_access_allowed(
        self,
        user: u64,
        required_role: UserRole,
        membership: Option<i128>,
    ) -> bool {
        &&& !self.blacklisted(user)
        &&& self.role_of(user).spec_has_access(required_role)
        &&& membership_check_ok(self.config, required_role, membership)
    }

    /// The tier decision: not blacklisted and tier high enough.
    pub open spec fn spec_tier_allowed(self, user: u64, required: SubscriptionTierLevel) -> bool {
        &&& !self.blacklisted(user)
        &&& self.tier_of(user).spec_has_tier_access(required)
    }

    /// Every proposal record is internally sane, live proposals and the
    /// pending index agree, and ids never reach the counter.
    pub open spec fn proposals_wf(self) -> bool {
        &&& forall|id: u64| #[trigger] self.proposals@.contains_key(id) ==> {
            let p = self.proposals@[id];
            &&& p.id == id
            &&& id < self.proposal_counter
            &&& p.votes_wf()
            &&& (p.executed || self.pending_list@.contains(id))
        }
        &&& distinct_seq(self.pending_list@)
        &&& forall|i: int| 0 <= i < self.pending_list@.len() ==> {
            let id = #[trigger] self.pending_list@[i];
            &&& self.proposals@.contains_key(id)
            &&& !self.proposals@[id].executed
        }
    }

    /// The counters track the pending index, the id counter, and never count
    /// more terminal proposals than were created.
    pub open spec fn stats_wf(self) -> bool {
        &&& self.stats.total_created == self.proposal_counter
        &&& self.stats.pending_count as int == self.pending_list@.len()
        &&& self.stats.total_executed + self.stats.total_rejected + self.stats.total_expired
            + self.stats.pending_count <= self.stats.total_created
    }

    /// An installed committee configuration is always valid and free of
    /// duplicate members.
    pub open spec fn multisig_wf(self) -> bool {
        match self.multisig {
            Some(c) => c.spec_valid() && distinct_seq(c.admins@),
            None => true,
        }
    }

    /// Before initialization nothing has happened: no committee, no
    /// proposals, zeroed counters.
    pub open spec fn uninit_wf(self) -> bool {
        !self.initialized ==> {
            &&& self.multisig is None
            &&& self.proposals@ == Map::<u64, PendingProposal>::empty()
            &&& self.pending_list@ == Seq::<u64>::empty()
            &&& self.proposal_counter == 0
            &&& self.stats == (ProposalStats {
                total_created: 0,
                total_executed: 0,
                total_rejected: 0,
                total_expired: 0,
                pending_count: 0,
            })
        }
    }

    /// Well-formedness of the whole state; established by [`Self::new`] and
    /// preserved by every operation.
    pub open spec fn wf(self) -> bool {
        &&& self.proposals_wf()
        &&& self.stats_wf()
        &&& self.multisig_wf()
        &&& self.uninit_wf()
    }

    /// The stats ledger balances: every created proposal is either still
    /// pending or counted in exactly one terminal counter. Holds after every
    /// operation except `cancel_proposal`, which withdraws a proposal
    /// without counting it anywhere.
    pub open spec fn stats_balanced(self) -> bool {
        self.stats.pending_count as int == self.stats.total_created as int
            - self.stats.total_executed as int - self.stats.total_rejected as int
            - self.stats.total_expired as int
    }

    /// The empty, uninitialized deployment state.
    pub fn new() -> (r: Self)
        ensures
            r.wf(),
            r.stats_balanced(),
            !r.initialized,
            !r.paused,
            !r.emergency_mode,
            r.admin is None,
            r.config == AccessControlConfig::spec_default(),
            r.multisig is None,
            r.roles@ == Map::<u64, UserRole>::empty(),
            r.blacklist@ == Set::<u64>::empty(),
            r.tiers@ == Map::<u64, SubscriptionTierLevel>::empty(),
            r.required_tier_of(UserRole::Guest) is Free,
            r.required_tier_of(UserRole::Member) is Free,
            r.required_tier_of(UserRole::Admin) is Free,
            r.access_attempts@ == Map::<u64, u32>::empty(),
            r.proposals@ == Map::<u64, PendingProposal>::empty(),
            r.pending_list@ == Seq::<u64>::empty(),
            r.proposal_counter == 0,
            r.pending_admin_transfer is None,
    {
        AccessControlModule {
            initialized: false,
            paused: false,
            emergency_mode: false,
            admin: None,
            config: AccessControlConfig::default(),
            multisig: None,
            roles: HashMap::new(),
            blacklist: HashSet::new(),
            tiers: HashMap::new(),
            required_tier_guest: SubscriptionTierLevel::Free,
            required_tier_member: SubscriptionTierLevel::Free,
            required_tier_admin: SubscriptionTierLevel::Free,
            access_attempts: HashMap::new(),
            proposals: HashMap::new(),
            pending_list: Vec::new(),
            proposal_counter: 0,
            stats: ProposalStats {
                total_created: 0,
                total_executed: 0,
                total_rejected: 0,
                total_expired: 0,
                pending_count: 0,
            },
            pending_admin_transfer: None,
        }
    }

    /// One-shot single-admin initialization: records the admin, grants the
    /// `Admin` role, installs the given or default policy configuration, and
    /// unpauses. A second call fails and changes nothing.
    pub fn initialize(&mut self, admin: u64, config: Option<AccessControlConfig>) -> (r: Result<
        (),
        AccessControlError,
    >)
        requires
            old(self).wf(),
        ensures
            final(self).wf(),
            old(self).stats_balanced() ==> final(self).stats_balanced(),
            old(self).initialized ==> r == Err::<(), AccessControlError>(
                AccessControlError::ConfigurationError,
            ) && *final(self) == *old(self),
            !old(self).initialized ==> {
                &&& r == Ok::<(), AccessControlError>(())
                &&& final(self).roles@ == old(self).roles@.insert(admin, UserRole::Admin)
                &&& final(self).config == (match config {
                    Some(c) => c,
                    None => AccessControlConfig::spec_default(),
                })
                &&& *final(self) == (AccessControlModule {
                    initialized: true,
                    paused: false,
                    admin: Some(admin),
                    config: final(self).config,
                    roles: final(self).roles,
                    proposal_counter: 0,
                    ..*old(self)
                })
            },
    {
        if self.initialized {
            return Err(AccessControlError::ConfigurationError);
        }
        self.admin = Some(admin);
        self.roles.insert(admin, UserRole::Admin);
        self.config = match config {
            Some(c) => c,
            None => AccessControlConfig::default(),
        };
        self.initialized = true;
        self.paused = false;
        self.proposal_counter = 0;
        Ok(())
    }

    /// Whether the deployment has been initialized.
    pub fn is_initialized(&self) -> (r: bool)
        ensures
            r == self.initialized,
    {
        self.initialized
    }

    /// Whether the contract is paused.
    pub fn is_paused(&self) -> (r: bool)
        ensures
            r == self.paused,
    {
        self.paused
    }

    /// Whether emergency mode is active.
    pub fn is_emergency_mode(&self) -> (r: bool)
        ensures
            r == self.emergency_mode,
    {
        self.emergency_mode
    }

    /// The current policy configuration.
    pub fn get_config(&self) -> (r: AccessControlConfig)
        ensures
            r == self.config,
    {
        self.config
    }

    /// The single admin, when one was recorded.
    pub fn get_admin(&self) -> (r: Option<u64>)
        ensures
            r == self.admin,
    {
        self.admin
    }

    /// The stored role of an account, `Guest` when never set.
    pub fn get_role(&self, user: u64) -> (r: UserRole)
        ensures
            r == self.role_of(user),
    {
        match self.roles.get(&user) {
            Some(role) => *role,
            None => UserRole::Guest,
        }
    }

    /// Whether the account's stored role is `Admin`.
    pub fn is_admin(&self, user: u64) -> (r: bool)
        ensures
            r == (self.role_of(user) is Admin),
    {
        matches!(self.get_role(user), UserRole::Admin)
    }

    /// Whether the account is blacklisted.
    pub fn is_blacklisted(&self, user: u64) -> (r: bool)
        ensures
            r == self.blacklisted(user),
    {
        self.blacklist.contains(&user)
    }

    /// Whether a committee governs this deployment.
    pub fn is_multisig_enabled(&self) -> (r: bool)
        ensures
            r == self.spec_multisig_enabled(),
    {
        self.multisig.is_some()
    }

    /// The committee configuration, when one is installed.
    pub fn get_multisig_config(&self) -> (r: Option<&MultiSigConfig>)
        ensures
            match r {
                Some(c) => self.multisig == Some(*c),
                None => self.multisig is None,
            },
    {
        match &self.multisig {
            Some(c) => Some(c),
            None => None,
        }
    }

    /// Admission test for privileged callers: in committee mode any
    /// committee member passes; otherwise only the recorded single admin
    /// does.
    pub fn require_admin(&self, caller: u64) -> (r: Result<(), AccessControlError>)
        ensures
            self.admin_ok(caller) ==> r == Ok::<(), AccessControlError>(()),
            !self.admin_ok(caller) ==> r == Err::<(), AccessControlError>(
                AccessControlError::AdminRequired,
            ),
    {
        match &self.multisig {
            Some(c) => {
                if vec_contains(&c.admins, caller) {
                    return Ok(());
                }
            },
            None => {
                if let Some(admin) = self.admin {
                    if admin == caller {
                        return Ok(());
                    }
                }
            },
        }
        Err(AccessControlError::AdminRequired)
    }
}

impl AccessControlModule {
    /// Bumps the audit counter of access attempts for an account, stopping
    /// at the counter's maximum.
    fn log_access_attempt(&mut self, user: u64)
        ensures
            final(self).access_attempts@ == old(self).access_attempts@.insert(
                user,
                sat_inc(old(self).attempts_of(user)),
            ),
            *final(self) == (AccessControlModule {
                access_attempts: final(self).access_attempts,
                ..*old(self)
            }),
    {
        let current: u32 = match self.access_attempts.get(&user) {
            Some(c) => *c,
            None => 0,
        };
        let next: u32 = if current == u32::MAX {
            current
        } else {
            current + 1
        };
        self.access_attempts.insert(user, next);
    }

    /// The check-path membership test, as an executable decision.
    fn check_membership_ok(&self, required_role: &UserRole, membership: Option<i128>) -> (r: bool)
        ensures
            r == membership_check_ok(self.config, *required_role, membership),
    {
        if self.config.require_membership_for_roles
            && matches!(required_role, UserRole::Member | UserRole::Admin)
            && self.config.membership_token_contract.is_some() {
            match membership {
                Some(b) => b >= self.config.min_token_balance,
                None => false,
            }
        } else {
            true
        }
    }

    /// The assignment-path membership test, as an executable decision.
    fn validate_role_assignment(&self, role: &UserRole, membership: Option<i128>) -> (r: Result<
        (),
        AccessControlError,
    >)
        ensures
            r == spec_validate_assignment(self.config, *role, membership),
    {
        if self.config.require_membership_for_roles
            && matches!(role, UserRole::Member | UserRole::Admin) {
            if self.config.membership_token_contract.is_some() {
                match membership {
                    Some(b) => if b < self.config.min_token_balance {
                        Err(AccessControlError::InsufficientMembership)
                    } else {
                        Ok(())
                    },
                    None => Err(AccessControlError::MembershipTokenCallFailed),
                }
            } else {
                Err(AccessControlError::MembershipTokenNotSet)
            }
        } else {
            Ok(())
        }
    }

    /// Stores a role for an account, gated on initialization, pause state,
    /// the blacklist, admin authority of the caller, and the membership
    /// policy. `membership` carries the balance reported by the membership
    /// token contract, `None` when that call failed or was not made.
    pub fn set_role(
        &mut self,
        caller: u64,
        user: u64,
        role: UserRole,
        membership: Option<i128>,
    ) -> (r: Result<(), AccessControlError>)
        requires
            old(self).wf(),
        ensures
            final(self).wf(),
            old(self).stats_balanced() ==> final(self).stats_balanced(),
            ({
                let s = *old(self);
                if !s.initialized {
                    r == Err::<(), AccessControlError>(AccessControlError::NotInitialized)
                        && *final(self) == s
                } else if s.paused {
                    r == Err::<(), AccessControlError>(AccessControlError::ContractPaused)
                        && *final(self) == s
                } else if s.blacklisted(user) {
                    r == Err::<(), AccessControlError>(AccessControlError::Unauthorized)
                        && *final(self) == s
                } else if !s.admin_ok(caller) {
                    r == Err::<(), AccessControlError>(AccessControlError::AdminRequired)
                        && *final(self) == s
                } else {
                    match spec_validate_assignment(s.config, role, membership) {
                        Err(e) => r == Err::<(), AccessControlError>(e) && *final(self) == s,
                        Ok(()) => {
                            &&& r == Ok::<(), AccessControlError>(())
                            &&& final(self).roles@ == s.roles@.insert(user, role)
                            &&& *final(self) == (AccessControlModule {
                                roles: final(self).roles,
                                ..s
                            })
                        },
                    }
                }
            }),
    {
        if !self.initialized {
            return Err(AccessControlError::NotInitialized);
        }
        if self.paused {
            return Err(AccessControlError::ContractPaused);
        }
        if self.is_blacklisted(user) {
            return Err(AccessControlError::Unauthorized);
        }
        if let Err(e) = self.require_admin(caller) {
            return Err(e);
        }
        if let Err(e) = self.validate_role_assignment(&role, membership) {
            return Err(e);
        }
        self.roles.insert(user, role);
        Ok(())
    }

    /// Decides whether an account may act at the required role, counting the
    /// attempt for audit. Blacklisted accounts are denied without error; the
    /// only errors are the lifecycle preconditions.
    pub fn check_access(
        &mut self,
        user: u64,
        required_role: UserRole,
        membership: Option<i128>,
    ) -> (r: Result<bool, AccessControlError>)
        requires
            old(self).wf(),
        ensures
            final(self).wf(),
            old(self).stats_balanced() ==> final(self).stats_balanced(),
            !old(self).initialized ==> r == Err::<bool, AccessControlError>(
                AccessControlError::NotInitialized,
            ) && *final(self) == *old(self),
            old(self).initialized && old(self).paused ==> r == Err::<bool, AccessControlError>(
                AccessControlError::ContractPaused,
            ) && *final(self) == *old(self),
            old(self).initialized && !old(self).paused ==> {
                &&& r == Ok::<bool, AccessControlError>(
                    old(self).spec_access_allowed(user, required_role, membership),
                )
                &&& (old(self).blacklisted(user) ==> *final(self) == *old(self))
                &&& (!old(self).blacklisted(user) ==> {
                    &&& final(self).access_attempts@ == old(self).access_attempts@.insert(
                        user,
                        sat_inc(old(self).attempts_of(user)),
                    )
                    &&& *final(self) == (AccessControlModule {
                        access_attempts: final(self).access_attempts,
                        ..*old(self)
                    })
                })
            },
    {
        if !self.initialized {
            return Err(AccessControlError::NotInitialized);
        }
        if self.paused {
            return Err(AccessControlError::ContractPaused);
        }
        if self.is_blacklisted(user) {
            return Ok(false);
        }
        let user_role = self.get_role(user);
        if !user_role.has_access(&required_role) {
            self.log_access_attempt(user);
            return Ok(false);
        }
        if self.check_membership_ok(&required_role, membership) {
            self.log_access_attempt(user);
            Ok(true)
        } else {
            self.log_access_attempt(user);
            Ok(false)
        }
    }

    /// As [`Self::check_access`], but a denial becomes an explicit
    /// insufficient-role failure.
    pub fn require_access(
        &mut self,
        user: u64,
        required_role: UserRole,
        membership: Option<i128>,
    ) -> (r: Result<(), AccessControlError>)
        requires
            old(self).wf(),
        ensures
            final(self).wf(),
            old(self).stats_balanced() ==> final(self).stats_balanced(),
            !old(self).initialized ==> r == Err::<(), AccessControlError>(
                AccessControlError::NotInitialized,
            ) && *final(self) == *old(self),
            old(self).initialized && old(self).paused ==> r == Err::<(), AccessControlError>(
                AccessControlError::ContractPaused,
            ) && *final(self) == *old(self),
            old(self).initialized && !old(self).paused ==> {
                &&& r == (if old(self).spec_access_allowed(user, required_role, membership) {
                    Ok::<(), AccessControlError>(())
                } else {
                    Err::<(), AccessControlError>(AccessControlError::InsufficientRole)
                })
                &&& (old(self).blacklisted(user) ==> *final(self) == *old(self))
                &&& (!old(self).blacklisted(user) ==> {
                    &&& final(self).access_attempts@ == old(self).access_attempts@.insert(
                        user,
                        sat_inc(old(self).attempts_of(user)),
                    )
                    &&& *final(self) == (AccessControlModule {
                        access_attempts: final(self).access_attempts,
                        ..*old(self)
                    })
                })
            },
    {
        match self.check_access(user, required_role, membership) {
            Err(e) => Err(e),
            Ok(true) => Ok(()),
            Ok(false) => Err(AccessControlError::InsufficientRole),
        }
    }

    /// Replaces the policy configuration. Refused in committee mode, where
    /// it must travel through a proposal.
    pub fn update_config(&mut self, caller: u64, config: AccessControlConfig) -> (r: Result<
        (),
        AccessControlError,
    >)
        requires
            old(self).wf(),
        ensures
            final(self).wf(),
            old(self).stats_balanced() ==> final(self).stats_balanced(),
            ({
                let s = *old(self);
                if s.spec_multisig_enabled() || !s.admin_ok(caller) {
                    r == Err::<(), AccessControlError>(AccessControlError::AdminRequired)
                        && *final(self) == s
                } else {
                    r == Ok::<(), AccessControlError>(()) && *final(self)
                        == (AccessControlModule { config, ..s })
                }
            }),
    {
        if self.multisig.is_some() {
            return Err(AccessControlError::AdminRequired);
        }
        if let Err(e) = self.require_admin(caller) {
            return Err(e);
        }
        self.config = config;
        Ok(())
    }

    /// Pauses the contract. Refused in committee mode, where pausing must
    /// travel through a proposal.
    pub fn pause(&mut self, caller: u64) -> (r: Result<(), AccessControlError>)
        requires
            old(self).wf(),
        ensures
            final(self).wf(),
            old(self).stats_balanced() ==> final(self).stats_balanced(),
            ({
                let s = *old(self);
                if s.spec_multisig_enabled() || !s.admin_ok(caller) {
                    r == Err::<(), AccessControlError>(AccessControlError::AdminRequired)
                        && *final(self) == s
                } else {
                    r == Ok::<(), AccessControlError>(()) && *final(self)
                        == (AccessControlModule { paused: true, ..s })
                }
            }),
    {
        if self.multisig.is_some() {
            return Err(AccessControlError::AdminRequired);
        }
        if let Err(e) = self.require_admin(caller) {
            return Err(e);
        }
        self.paused = true;
        Ok(())
    }

    /// Unpauses the contract. Refused in committee mode, where unpausing
    /// must travel through a proposal.
    pub fn unpause(&mut self, caller: u64) -> (r: Result<(), AccessControlError>)
        requires
            old(self).wf(),
        ensures
            final(self).wf(),
            old(self).stats_balanced() ==> final(self).stats_balanced(),
            ({
                let s = *old(self);
                if s.spec_multisig_enabled() || !s.admin_ok(caller) {
                    r == Err::<(), AccessControlError>(AccessControlError::AdminRequired)
                        && *final(self) == s
                } else {
                    r == Ok::<(), AccessControlError>(()) && *final(self)
                        == (AccessControlModule { paused: false, ..s })
                }
            }),
    {
        if self.multisig.is_some() {
            return Err(AccessControlError::AdminRequired);
        }
        if let Err(e) = self.require_admin(caller) {
            return Err(e);
        }
        self.paused = false;
        Ok(())
    }

    /// Clears the emergency flag. Refused in committee mode.
    pub fn deactivate_emergency_mode(&mut self, caller: u64) -> (r: Result<
        (),
        AccessControlError,
    >)
        requires
            old(self).wf(),
        ensures
            final(self).wf(),
            old(self).stats_balanced() ==> final(self).stats_balanced(),
            ({
                let s = *old(self);
                if !s.admin_ok(caller) || s.spec_multisig_enabled() {
                    r == Err::<(), AccessControlError>(AccessControlError::AdminRequired)
                        && *final(self) == s
                } else {
                    r == Ok::<(), AccessControlError>(()) && *final(self)
                        == (AccessControlModule { emergency_mode: false, ..s })
                }
            }),
    {
        if let Err(e) = self.require_admin(caller) {
            return Err(e);
        }
        if self.multisig.is_some() {
            return Err(AccessControlError::AdminRequired);
        }
        self.emergency_mode = false;
        Ok(())
    }

    /// Marks an account as blacklisted.
    pub fn blacklist_user(&mut self, caller: u64, user: u64) -> (r: Result<
        (),
        AccessControlError,
    >)
        requires
            old(self).wf(),
        ensures
            final(self).wf(),
            old(self).stats_balanced() ==> final(self).stats_balanced(),
            ({
                let s = *old(self);
                if !s.admin_ok(caller) {
                    r == Err::<(), AccessControlError>(AccessControlError::AdminRequired)
                        && *final(self) == s
                } else {
                    &&& r == Ok::<(), AccessControlError>(())
                    &&& final(self).blacklist@ == s.blacklist@.insert(user)
                    &&& *final(self) == (AccessControlModule {
                        blacklist: final(self).blacklist,
                        ..s
                    })
                }
            }),
    {
        if let Err(e) = self.require_admin(caller) {
            return Err(e);
        }
        self.blacklist.insert(user);
        Ok(())
    }

    /// Removes an account from the blacklist.
    pub fn unblacklist_user(&mut self, caller: u64, user: u64) -> (r: Result<
        (),
        AccessControlError,
    >)
        requires
            old(self).wf(),
        ensures
            final(self).wf(),
            old(self).stats_balanced() ==> final(self).stats_balanced(),
            ({
                let s = *old(self);
                if !s.admin_ok(caller) {
                    r == Err::<(), AccessControlError>(AccessControlError::AdminRequired)
                        && *final(self) == s
                } else {
                    &&& r == Ok::<(), AccessControlError>(())
                    &&& final(self).blacklist@ == s.blacklist@.remove(user)
                    &&& *final(self) == (AccessControlModule {
                        blacklist: final(self).blacklist,
                        ..s
                    })
                }
            }),
    {
        if let Err(e) = self.require_admin(caller) {
            return Err(e);
        }
        self.blacklist.remove(&user);
        Ok(())
    }

    /// Resets an account's role to `Guest`. The recorded single admin can
    /// never be stripped, and an admin cannot demote themself.
    pub fn remove_role(&mut self, caller: u64, user: u64) -> (r: Result<(), AccessControlError>)
        requires
            old(self).wf(),
        ensures
            final(self).wf(),
            old(self).stats_balanced() ==> final(self).stats_balanced(),
            ({
                let s = *old(self);
                if !s.admin_ok(caller) {
                    r == Err::<(), AccessControlError>(AccessControlError::AdminRequired)
                        && *final(self) == s
                } else if s.admin == Some(user) || (caller == user && s.role_of(user) is Admin) {
                    r == Err::<(), AccessControlError>(AccessControlError::RoleHierarchyViolation)
                        && *final(self) == s
                } else {
                    &&& r == Ok::<(), AccessControlError>(())
                    &&& final(self).roles@ == s.roles@.insert(user, UserRole::Guest)
                    &&& *final(self) == (AccessControlModule { roles: final(self).roles, ..s })
                }
            }),
    {
        if let Err(e) = self.require_admin(caller) {
            return Err(e);
        }
        if let Some(admin) = self.admin {
            if user == admin {
                return Err(AccessControlError::RoleHierarchyViolation);
            }
        }
        if caller == user && self.is_admin(user) {
            return Err(AccessControlError::RoleHierarchyViolation);
        }
        self.roles.insert(user, UserRole::Guest);
        Ok(())
    }

    /// Records a proposed handover of the single admin seat, valid for
    /// [`ADMIN_TRANSFER_EXPIRY`] seconds. Only meaningful outside committee
    /// mode, and never to oneself.
    pub fn propose_admin_transfer(&mut self, current_admin: u64, new_admin: u64, now: u64) -> (r:
        Result<(), AccessControlError>)
        requires
            old(self).wf(),
            now + ADMIN_TRANSFER_EXPIRY <= u64::MAX,
        ensures
            final(self).wf(),
            old(self).stats_balanced() ==> final(self).stats_balanced(),
            ({
                let s = *old(self);
                if !s.admin_ok(current_admin) {
                    r == Err::<(), AccessControlError>(AccessControlError::AdminRequired)
                        && *final(self) == s
                } else if current_admin == new_admin || s.spec_multisig_enabled() {
                    r == Err::<(), AccessControlError>(AccessControlError::InvalidAddress)
                        && *final(self) == s
                } else {
                    r == Ok::<(), AccessControlError>(()) && *final(self)
                        == (AccessControlModule {
                        pending_admin_transfer: Some(
                            PendingAdminTransfer {
                                proposed_admin: new_admin,
                                proposer: current_admin,
                                expiry: (now + ADMIN_TRANSFER_EXPIRY) as u64,
                            },
                        ),
                        ..s
                    })
                }
            }),
    {
        if let Err(e) = self.require_admin(current_admin) {
            return Err(e);
        }
        if current_admin == new_admin {
            return Err(AccessControlError::InvalidAddress);
        }
        if self.multisig.is_some() {
            return Err(AccessControlError::InvalidAddress);
        }
        self.pending_admin_transfer = Some(
            PendingAdminTransfer {
                proposed_admin: new_admin,
                proposer: current_admin,
                expiry: now + ADMIN_TRANSFER_EXPIRY,
            },
        );
        Ok(())
    }

    /// Completes a proposed handover: before its expiry, the proposed new
    /// admin takes the seat and the `Admin` role, and the previous admin is
    /// demoted to `Guest`.
    pub fn accept_admin_transfer(&mut self, new_admin: u64, now: u64) -> (r: Result<
        (),
        AccessControlError,
    >)
        requires
            old(self).wf(),
        ensures
            final(self).wf(),
            old(self).stats_balanced() ==> final(self).stats_balanced(),
            ({
                let s = *old(self);
                match s.pending_admin_transfer {
                    None => r == Err::<(), AccessControlError>(AccessControlError::InvalidAddress)
                        && *final(self) == s,
                    Some(t) => {
                        if t.proposed_admin != new_admin {
                            r == Err::<(), AccessControlError>(AccessControlError::Unauthorized)
                                && *final(self) == s
                        } else if now > t.expiry {
                            r == Err::<(), AccessControlError>(AccessControlError::InvalidAddress)
                                && *final(self) == s
                        } else {
                            match s.admin {
                                None => r == Err::<(), AccessControlError>(
                                    AccessControlError::AdminRequired,
                                ) && *final(self) == s,
                                Some(old_admin) => {
                                    &&& r == Ok::<(), AccessControlError>(())
                                    &&& final(self).roles@ == s.roles@.insert(
                                        new_admin,
                                        UserRole::Admin,
                                    ).insert(old_admin, UserRole::Guest)
                                    &&& *final(self) == (AccessControlModule {
                                        admin: Some(new_admin),
                                        roles: final(self).roles,
                                        pending_admin_transfer: None,
                                        ..s
                                    })
                                },
                            }
                        }
                    },
                }
            }),
    {
        let pending = match self.pending_admin_transfer {
            Some(t) => t,
            None => {
                return Err(AccessControlError::InvalidAddress);
            },
        };
        if pending.proposed_admin != new_admin {
            return Err(AccessControlError::Unauthorized);
        }
        if now > pending.expiry {
            return Err(AccessControlError::InvalidAddress);
        }
        let old_admin = match self.admin {
            Some(a) => a,
            None => {
                return Err(AccessControlError::AdminRequired);
            },
        };
        self.admin = Some(new_admin);
        self.roles.insert(new_admin, UserRole::Admin);
        self.roles.insert(old_admin, UserRole::Guest);
        self.pending_admin_transfer = None;
        Ok(())
    }

    /// Withdraws a proposed handover; only its proposer may do so.
    pub fn cancel_admin_transfer(&mut self, current_admin: u64) -> (r: Result<
        (),
        AccessControlError,
    >)
        requires
            old(self).wf(),
        ensures
            final(self).wf(),
            old(self).stats_balanced() ==> final(self).stats_balanced(),
            ({
                let s = *old(self);
                if !s.admin_ok(current_admin) {
                    r == Err::<(), AccessControlError>(AccessControlError::AdminRequired)
                        && *final(self) == s
                } else {
                    match s.pending_admin_transfer {
                        None => r == Err::<(), AccessControlError>(
                            AccessControlError::InvalidAddress,
                        ) && *final(self) == s,
                        Some(t) => {
                            if t.proposer != current_admin {
                                r == Err::<(), AccessControlError>(
                                    AccessControlError::Unauthorized,
                                ) && *final(self) == s
                            } else {
                                r == Ok::<(), AccessControlError>(()) && *final(self)
                                    == (AccessControlModule {
                                    pending_admin_transfer: None,
                                    ..s
                                })
                            }
                        },
                    }
                }
            }),
    {
        if let Err(e) = self.require_admin(current_admin) {
            return Err(e);
        }
        let pending = match self.pending_admin_transfer {
            Some(t) => t,
            None => {
                return Err(AccessControlError::InvalidAddress);
            },
        };
        if pending.proposer != current_admin {
            return Err(AccessControlError::Unauthorized);
        }
        self.pending_admin_transfer = None;
        Ok(())
    }

    /// The in-flight single-admin handover, if any.
    pub fn get_pending_admin_transfer(&self) -> (r: Option<PendingAdminTransfer>)
        ensures
            r == self.pending_admin_transfer,
    {
        self.pending_admin_transfer
    }

    /// Caches an account's subscription tier.
    pub fn set_user_tier(&mut self, caller: u64, user: u64, tier_level: SubscriptionTierLevel) -> (r:
        Result<(), AccessControlError>)
        requires
            old(self).wf(),
        ensures
            final(self).wf(),
            old(self).stats_balanced() ==> final(self).stats_balanced(),
            ({
                let s = *old(self);
                if !s.admin_ok(caller) {
                    r == Err::<(), AccessControlError>(AccessControlError::AdminRequired)
                        && *final(self) == s
                } else {
                    &&& r == Ok::<(), AccessControlError>(())
                    &&& final(self).tiers@ == s.tiers@.insert(user, tier_level)
                    &&& *final(self) == (AccessControlModule { tiers: final(self).tiers, ..s })
                }
            }),
    {
        if let Err(e) = self.require_admin(caller) {
            return Err(e);
        }
        self.tiers.insert(user, tier_level);
        Ok(())
    }

    /// The cached tier of an account, `Free` when never set.
    pub fn get_user_tier(&self, user: u64) -> (r: SubscriptionTierLevel)
        ensures
            r == self.tier_of(user),
    {
        match self.tiers.get(&user) {
            Some(t) => *t,
            None => SubscriptionTierLevel::Free,
        }
    }

    /// Sets the tier an account must hold to carry the given role.
    pub fn set_required_tier_for_role(
        &mut self,
        caller: u64,
        role: UserRole,
        required_tier: SubscriptionTierLevel,
    ) -> (r: Result<(), AccessControlError>)
        requires
            old(self).wf(),
        ensures
            final(self).wf(),
            old(self).stats_balanced() ==> final(self).stats_balanced(),
            ({
                let s = *old(self);
                if !s.admin_ok(caller) {
                    r == Err::<(), AccessControlError>(AccessControlError::AdminRequired)
                        && *final(self) == s
                } else {
                    r == Ok::<(), AccessControlError>(()) && *final(self) == (match role {
                        UserRole::Guest => AccessControlModule {
                            required_tier_guest: required_tier,
                            ..s
                        },
                        UserRole::Member => AccessControlModule {
                            required_tier_member: required_tier,
                            ..s
                        },
                        UserRole::Admin => AccessControlModule {
                            required_tier_admin: required_tier,
                            ..s
                        },
                    })
                }
            }),
    {
        if let Err(e) = self.require_admin(caller) {
            return Err(e);
        }
        match role {
            UserRole::Guest => {
                self.required_tier_guest = required_tier;
            },
            UserRole::Member => {
                self.required_tier_member = required_tier;
            },
            UserRole::Admin => {
                self.required_tier_admin = required_tier;
            },
        }
        Ok(())
    }

    /// The tier an account must hold to carry the given role, `Free` when
    /// never set.
    pub fn get_required_tier_for_role(&self, role: UserRole) -> (r: SubscriptionTierLevel)
        ensures
            r == self.required_tier_of(role),
    {
        match role {
            UserRole::Guest => self.required_tier_guest,
            UserRole::Member => self.required_tier_member,
            UserRole::Admin => self.required_tier_admin,
        }
    }

    /// Decides whether an account holds the required tier. Blacklisted
    /// accounts are denied without error.
    pub fn check_tier_access(&self, user: u64, required_tier: SubscriptionTierLevel) -> (r: Result<
        bool,
        AccessControlError,
    >)
        ensures
            !self.initialized ==> r == Err::<bool, AccessControlError>(
                AccessControlError::NotInitialized,
            ),
            self.initialized && self.paused ==> r == Err::<bool, AccessControlError>(
                AccessControlError::ContractPaused,
            ),
            self.initialized && !self.paused ==> r == Ok::<bool, AccessControlError>(
                self.spec_tier_allowed(user, required_tier),
            ),
    {
        if !self.initialized {
            return Err(AccessControlError::NotInitialized);
        }
        if self.paused {
            return Err(AccessControlError::ContractPaused);
        }
        if self.is_blacklisted(user) {
            return Ok(false);
        }
        let user_tier = self.get_user_tier(user);
        Ok(user_tier.has_tier_access(&required_tier))
    }

    /// As [`Self::check_tier_access`], but a denial becomes an explicit
    /// insufficient-role failure.
    pub fn require_tier_access(&self, user: u64, required_tier: SubscriptionTierLevel) -> (r:
        Result<(), AccessControlError>)
        ensures
            !self.initialized ==> r == Err::<(), AccessControlError>(
                AccessControlError::NotInitialized,
            ),
            self.initialized && self.paused ==> r == Err::<(), AccessControlError>(
                AccessControlError::ContractPaused,
            ),
            self.initialized && !self.paused ==> r == (if self.spec_tier_allowed(
                user,
                required_tier,
            ) {
                Ok::<(), AccessControlError>(())
            } else {
                Err::<(), AccessControlError>(AccessControlError::InsufficientRole)
            }),
    {
        match self.check_tier_access(user, required_tier) {
            Err(e) => Err(e),
            Ok(true) => Ok(()),
            Ok(false) => Err(AccessControlError::InsufficientRole),
        }
    }

    /// Combined decision: the account must pass both the role check and the
    /// tier check. The role check runs first and short-circuits, and counts
    /// the attempt for audit as [`Self::check_access`] does.
    pub fn check_role_and_tier_access(
        &mut self,
        user: u64,
        required_role: UserRole,
        required_tier: SubscriptionTierLevel,
        membership: Option<i128>,
    ) -> (r: Result<bool, AccessControlError>)
        requires
            old(self).wf(),
        ensures
            final(self).wf(),
            old(self).stats_balanced() ==> final(self).stats_balanced(),
            !old(self).initialized ==> r == Err::<bool, AccessControlError>(
                AccessControlError::NotInitialized,
            ) && *final(self) == *old(self),
            old(self).initialized && old(self).paused ==> r == Err::<bool, AccessControlError>(
                AccessControlError::ContractPaused,
            ) && *final(self) == *old(self),
            old(self).initialized && !old(self).paused ==> {
                &&& r == Ok::<bool, AccessControlError>(
                    old(self).spec_access_allowed(user, required_role, membership) && old(
                        self,
                    ).spec_tier_allowed(user, required_tier),
                )
                &&& (old(self).blacklisted(user) ==> *final(self) == *old(self))
                &&& (!old(self).blacklisted(user) ==> {
                    &&& final(self).access_attempts@ == old(self).access_attempts@.insert(
                        user,
                        sat_inc(old(self).attempts_of(user)),
                    )
                    &&& *final(self) == (AccessControlModule {
                        access_attempts: final(self).access_attempts,
                        ..*old(self)
                    })
                })
            },
    {
        let has_role_access = match self.check_access(user, required_role, membership) {
            Err(e) => {
                return Err(e);
            },
            Ok(b) => b,
        };
        if !has_role_access {
            return Ok(false);
        }
        match self.check_tier_access(user, required_tier) {
            Err(e) => Err(e),
            Ok(b) => Ok(b),
        }
    }

    /// As [`Self::check_role_and_tier_access`], but a denial becomes an
    /// explicit insufficient-role failure.
    pub fn require_role_and_tier_access(
        &mut self,
        user: u64,
        required_role: UserRole,
        required_tier: SubscriptionTierLevel,
        membership: Option<i128>,
    ) -> (r: Result<(), AccessControlError>)
        requires
            old(self).wf(),
        ensures
            final(self).wf(),
            old(self).stats_balanced() ==> final(self).stats_balanced(),
            !old(self).initialized ==> r == Err::<(), AccessControlError>(
                AccessControlError::NotInitialized,
            ) && *final(self) == *old(self),
            old(self).initialized && old(self).paused ==> r == Err::<(), AccessControlError>(
                AccessControlError::ContractPaused,
            ) && *final(self) == *old(self),
            old(self).initialized && !old(self).paused ==> {
                &&& r == (if old(self).spec_access_allowed(user, required_role, membership) && old(
                    self,
                ).spec_tier_allowed(user, required_tier) {
                    Ok::<(), AccessControlError>(())
                } else {
                    Err::<(), AccessControlError>(AccessControlError::InsufficientRole)
                })
                &&& (old(self).blacklisted(user) ==> *final(self) == *old(self))
                &&& (!old(self).blacklisted(user) ==> {
                    &&& final(self).access_attempts@ == old(self).access_attempts@.insert(
                        user,
                        sat_inc(old(self).attempts_of(user)),
                    )
                    &&& *final(self) == (AccessControlModule {
                        access_attempts: final(self).access_attempts,
                        ..*old(self)
                    })
                })
            },
    {
        match self.check_role_and_tier_access(user, required_role, required_tier, membership) {
            Err(e) => Err(e),
            Ok(true) => Ok(()),
            Ok(false) => Err(AccessControlError::InsufficientRole),
        }
    }

    /// Whether the account's cached tier reaches the tier its role requires;
    /// vacuously true when tier restrictions are not enforced.
    pub fn validate_tier_for_role(&self, user: u64, role: UserRole) -> (r: Result<
        bool,
        AccessControlError,
    >)
        ensures
            r == Ok::<bool, AccessControlError>(
                !self.config.enforce_tier_restrictions || self.tier_of(user).spec_has_tier_access(
                    self.required_tier_of(role),
                ),
            ),
    {
        if !self.config.enforce_tier_restrictions {
            return Ok(true);
        }
        let required_tier = self.get_required_tier_for_role(role);
        let user_tier = self.get_user_tier(user);
        Ok(user_tier.has_tier_access(&required_tier))
    }

    /// Access check keyed by a role name: `"Admin"` and `"Member"` (matched
    /// exactly) name those roles, anything else means `Guest`; any error is
    /// reported as a plain denial.
    pub fn check_access_legacy(
        &mut self,
        caller: u64,
        required_role: &str,
        membership: Option<i128>,
    ) -> (r: bool)
        requires
            old(self).wf(),
        ensures
            final(self).wf(),
            old(self).stats_balanced() ==> final(self).stats_balanced(),
            r == (old(self).initialized && !old(self).paused && old(self).spec_access_allowed(
                caller,
                spec_legacy_role(required_role@),
                membership,
            )),
            (!old(self).initialized || old(self).paused || old(self).blacklisted(caller))
                ==> *final(self) == *old(self),
            (old(self).initialized && !old(self).paused && !old(self).blacklisted(caller)) ==> {
                &&& final(self).access_attempts@ == old(self).access_attempts@.insert(
                    caller,
                    sat_inc(old(self).attempts_of(caller)),
                )
                &&& *final(self) == (AccessControlModule {
                    access_attempts: final(self).access_attempts,
                    ..*old(self)
                })
            },
    {
        let role = if str_eq(required_role, "Admin") {
            UserRole::Admin
        } else if str_eq(required_role, "Member") {
            UserRole::Member
        } else {
            UserRole::Guest
        };
        match self.check_access(caller, role, membership) {
            Ok(b) => b,
            Err(_) => false,
        }
    }

    /// The subscription status derived from the cached tier alone.
    pub fn get_user_subscription_status(&self, user: u64) -> (r: UserSubscriptionStatus)
        ensures
            r == (UserSubscriptionStatus {
                tier_level: self.tier_of(user),
                is_active: true,
                expires_at: 0,
            }),
    {
        let tier_level = self.get_user_tier(user);
        UserSubscriptionStatus { tier_level, is_active: true, expires_at: 0 }
    }
}

/// The role a legacy role name denotes: `"Admin"` and `"Member"` exactly,
/// anything else `Guest`.
pub open spec fn spec_legacy_role(s: Seq<char>) -> UserRole {
    if s == "Admin"@ {
        UserRole::Admin
    } else if s == "Member"@ {
        UserRole::Member
    } else {
        UserRole::Guest
    }
}

/// Exact string comparison, character by character.
fn str_eq(s: &str, t: &str) -> (r: bool)
    ensures
        r == (s@ == t@),
{
    let n = s.unicode_len();
    if n != t.unicode_len() {
        return false;
    }
    let mut i: usize = 0;
    while i < n
        invariant
            i <= n,
            n == s@.len(),
            n == t@.len(),
            forall|j: int| 0 <= j < i ==> s@[j] == t@[j],
        decreases n - i,
    {
        if s.get_char(i) != t.get_char(i) {
            return false;
        }
        i = i + 1;
    }
    proof {
        assert(s@ =~= t@);
    }
    true
}

/// Linear membership scan over a plain id vector.
pub(crate) fn vec_contains(v: &Vec<u64>, x: u64) -> (r: bool)
    ensures
        r == v@.contains(x),
{
    let mut i: usize = 0;
    while i < v.len()
        invariant
            i <= v@.len(),
            forall|j: int| 0 <= j < i ==> v@[j] != x,
        decreases v@.len() - i,
    {
        if v[i] == x {
            return true;
        }
        i = i + 1;
    }
    false
}

} // verus!
