//! Data model of the access-control engine: roles, subscription tiers,
//! policy configuration, committee configuration, and proposal records.
//!
//! Accounts are identified by plain `u64` values throughout; the hosting
//! layer is responsible for mapping its own address type onto these ids.

use vstd::prelude::*;
use vstd::string::StrSliceExecFns;

verus! {

/// Coarse-grained capability level, totally ordered `Guest < Member < Admin`.
#[derive(Clone, Copy, Debug, PartialEq, Eq, Structural)]
pub enum UserRole {
    Guest,
    Member,
    Admin,
}

/// ASCII lower-casing of a single character, as a code point.
pub open spec fn lower_code(c: char) -> u32 {
    if 65 <= c as u32 && c as u32 <= 90 {
        (c as u32 + 32) as u32
    } else {
        c as u32
    }
}

/// Two character sequences are equal up to ASCII case.
pub open spec fn eq_ignore_ascii_case_seq(s: Seq<char>, t: Seq<char>) -> bool {
    &&& s.len() == t.len()
    &&& forall|i: int| 0 <= i < s.len() ==> lower_code(s[i]) == lower_code(t[i])
}

/// The role named by a string, compared case-insensitively.
pub open spec fn spec_parse_role(s: Seq<char>) -> Option<UserRole> {
    if eq_ignore_ascii_case_seq(s, "guest"@) {
        Some(UserRole::Guest)
    } else if eq_ignore_ascii_case_seq(s, "member"@) {
        Some(UserRole::Member)
    } else if eq_ignore_ascii_case_seq(s, "admin"@) {
        Some(UserRole::Admin)
    } else {
        None
    }
}

/// ASCII lower-casing of one character.
fn lower_of_char(c: char) -> (r: u32)
    ensures
        r == lower_code(c),
{
    let u = c as u32;
    if 65 <= u && u <= 90 {
        u + 32
    } else {
        u
    }
}

/// Case-insensitive (ASCII) string comparison.
fn eq_ignore_ascii_case(s: &str, t: &str) -> (r: bool)
    ensures
        r == eq_ignore_ascii_case_seq(s@, t@),
{
    let n = s.unicode_len();
    if n != t.unicode_len() {
        return false;
    }
    let mut i: usize = 0;
    while i < n
        invariant
            i <= n,
            n == s@.len(),
            n == t@.len(),
            forall|j: int| 0 <= j < i ==> lower_code(s@[j]) == lower_code(t@[j]),
        decreases n - i,
    {
        let cs = s.get_char(i);
        let ct = t.get_char(i);
        if lower_of_char(cs) != lower_of_char(ct) {
            return false;
        }
        i = i + 1;
    }
    true
}

impl UserRole {
    /// Position of this role in the hierarchy.
    pub open spec fn rank(self) -> int {
        match self {
            UserRole::Guest => 0,
            UserRole::Member => 1,
            UserRole::Admin => 2,
        }
    }

    /// A role grants every capability of a lower-ranked role.
    pub open spec fn spec_has_access(self, required: UserRole) -> bool {
        self.rank() >= required.rank()
    }

    fn rank_value(&self) -> (r: u8)
        ensures
            r as int == self.rank(),
    {
        match self {
            UserRole::Guest => 0,
            UserRole::Member => 1,
            UserRole::Admin => 2,
        }
    }

    /// Hierarchy comparison: true exactly when this role is ranked at or
    /// above the required role.
    pub fn has_access(&self, required_role: &UserRole) -> (r: bool)
        ensures
            r == self.spec_has_access(*required_role),
    {
        self.rank_value() >= required_role.rank_value()
    }

    /// The canonical display name of this role.
    pub open spec fn spec_as_str(self) -> Seq<char> {
        match self {
            UserRole::Guest => "Guest"@,
            UserRole::Member => "Member"@,
            UserRole::Admin => "Admin"@,
        }
    }

    pub fn as_str(&self) -> (r: &'static str)
        ensures
            r@ == self.spec_as_str(),
    {
        match self {
            UserRole::Guest => "Guest",
            UserRole::Member => "Member",
            UserRole::Admin => "Admin",
        }
    }

    /// Parses a role name, ignoring ASCII case; unknown names give `None`.
    pub fn parse_from_str(role_str: &str) -> (r: Option<UserRole>)
        ensures
            r == spec_parse_role(role_str@),
    {
        if eq_ignore_ascii_case(role_str, "guest") {
            Some(UserRole::Guest)
        } else if eq_ignore_ascii_case(role_str, "member") {
            Some(UserRole::Member)
        } else if eq_ignore_ascii_case(role_str, "admin") {
            Some(UserRole::Admin)
        } else {
            None
        }
    }
}

/// Law of the role hierarchy: a role reaches exactly itself and the roles
/// ranked below it, so any two roles are comparable, and access follows the
/// total order `Guest < Member < Admin`.
pub proof fn lemma_role_hierarchy_total(r1: UserRole, r2: UserRole)
    ensures
        r1.spec_has_access(r2) <==> (r1 == r2 || r2.rank() < r1.rank()),
        r1.spec_has_access(r1),
        r1.spec_has_access(r2) || r2.spec_has_access(r1),
{
}

/// Subscription level, an axis independent of [`UserRole`], totally ordered
/// `Free < Basic < Pro < Enterprise`.
#[derive(Clone, Copy, Debug, PartialEq, Eq, Structural)]
pub enum SubscriptionTierLevel {
    Free,
    Basic,
    Pro,
    Enterprise,
}

impl SubscriptionTierLevel {
    /// Position of this tier in the hierarchy.
    pub open spec fn rank(self) -> int {
        match self {
            SubscriptionTierLevel::Free => 0,
            SubscriptionTierLevel::Basic => 1,
            SubscriptionTierLevel::Pro => 2,
            SubscriptionTierLevel::Enterprise => 3,
        }
    }

    /// A tier grants every feature of a lower-ranked tier.
    pub open spec fn spec_has_tier_access(self, required: SubscriptionTierLevel) -> bool {
        self.rank() >= required.rank()
    }

    fn rank_value(&self) -> (r: u8)
        ensures
            r as int == self.rank(),
    {
        match self {
            SubscriptionTierLevel::Free => 0,
            SubscriptionTierLevel::Basic => 1,
            SubscriptionTierLevel::Pro => 2,
            SubscriptionTierLevel::Enterprise => 3,
        }
    }

    /// Tier comparison: true exactly when this tier is ranked at or above
    /// the required tier.
    pub fn has_tier_access(&self, required_tier: &SubscriptionTierLevel) -> (r: bool)
        ensures
            r == self.spec_has_tier_access(*required_tier),
    {
        self.rank_value() >= required_tier.rank_value()
    }

    /// The canonical display name of this tier.
    pub open spec fn spec_as_str(self) -> Seq<char> {
        match self {
            SubscriptionTierLevel::Free => "Free"@,
            SubscriptionTierLevel::Basic => "Basic"@,
            SubscriptionTierLevel::Pro => "Pro"@,
            SubscriptionTierLevel::Enterprise => "Enterprise"@,
        }
    }

    pub fn as_str(&self) -> (r: &'static str)
        ensures
            r@ == self.spec_as_str(),
    {
        match self {
            SubscriptionTierLevel::Free => "Free",
            SubscriptionTierLevel::Basic => "Basic",
            SubscriptionTierLevel::Pro => "Pro",
            SubscriptionTierLevel::Enterprise => "Enterprise",
        }
    }
}

/// Default time-lock applied to critical and time-locked proposals, in
/// seconds (24 hours).
pub const DEFAULT_TIME_LOCK_DURATION: u64 = 86400;

/// Default cap on simultaneously pending proposals.
pub const DEFAULT_MAX_PENDING_PROPOSALS: u32 = 50;

/// Default proposal lifetime, in seconds (7 days).
pub const DEFAULT_PROPOSAL_EXPIRY_DURATION: u64 = 604800;

/// No two entries of the sequence are equal.
pub open spec fn distinct_seq(s: Seq<u64>) -> bool {
    forall|i: int, j: int| 0 <= i < j < s.len() ==> s[i] != s[j]
}

/// Membership token information for cross-contract integration.
#[derive(Clone, Copy, Debug, PartialEq, Eq)]
pub struct MembershipInfo {
    /// Account of the user
    pub user: u64,
    /// Token balance (if any)
    pub balance: i128,
    /// Whether the user has active membership
    pub has_membership: bool,
}

impl MembershipInfo {
    /// Interprets a balance reported by the membership token contract: any
    /// positive balance counts as an active membership.
    pub fn from_balance(user: u64, balance: i128) -> (r: MembershipInfo)
        ensures
            r == (MembershipInfo { user, balance, has_membership: balance > 0 }),
    {
        MembershipInfo { user, balance, has_membership: balance > 0 }
    }
}

/// Access control policy configuration.
#[derive(Clone, Copy, Debug, PartialEq, Eq)]
pub struct AccessControlConfig {
    /// Account of the membership token contract
    pub membership_token_contract: Option<u64>,
    /// Whether to require membership tokens for role assignment
    pub require_membership_for_roles: bool,
    /// Minimum token balance required for membership
    pub min_token_balance: i128,
    /// Account of the subscription/tier management contract
    pub subscription_contract: Option<u64>,
    /// Whether to enforce tier-based feature restrictions
    pub enforce_tier_restrictions: bool,
}

impl AccessControlConfig {
    /// The configuration with every toggle off and every field empty.
    pub open spec fn spec_default() -> AccessControlConfig {
        AccessControlConfig {
            membership_token_contract: None,
            require_membership_for_roles: false,
            min_token_balance: 0,
            subscription_contract: None,
            enforce_tier_restrictions: false,
        }
    }
}

impl Default for AccessControlConfig {
    fn default() -> (r: Self)
        ensures
            r == AccessControlConfig::spec_default(),
    {
        AccessControlConfig {
            membership_token_contract: None,
            require_membership_for_roles: false,
            min_token_balance: 0,
            subscription_contract: None,
            enforce_tier_restrictions: false,
        }
    }
}

/// User subscription info for access control validation.
#[derive(Clone, Copy, Debug, PartialEq, Eq)]
pub struct UserSubscriptionStatus {
    /// User's current subscription tier level
    pub tier_level: SubscriptionTierLevel,
    /// Whether subscription is currently active
    pub is_active: bool,
    /// Subscription expiry timestamp
    pub expires_at: u64,
}

/// Committee membership and the approval thresholds and operational limits
/// that govern proposals.
#[derive(Clone, Debug)]
pub struct MultiSigConfig {
    /// Committee member accounts, without duplicates
    pub admins: Vec<u64>,
    /// Standard approval threshold
    pub required_signatures: u32,
    /// Higher threshold for critical operations
    pub critical_threshold: u32,
    /// Even higher threshold for emergency operations
    pub emergency_threshold: u32,
    /// Time-lock duration in seconds for critical and time-locked proposals
    pub time_lock_duration: u64,
    /// Maximum number of pending proposals
    pub max_pending_proposals: u32,
    /// Proposal expiration duration in seconds
    pub proposal_expiry_duration: u64,
}

/// Risk classification of a proposal, which selects its approval threshold
/// and whether a time-lock applies.
#[derive(Clone, Copy, Debug, PartialEq, Eq, Structural)]
pub enum ProposalType {
    /// Regular operations requiring standard approval
    Standard,
    /// Critical operations with higher security requirements
    Critical,
    /// Emergency operations with special override procedures
    Emergency,
    /// Time-locked operations with mandatory delay
    TimeLocked,
}

impl ProposalType {
    /// Whether this proposal type carries a mandatory time-lock.
    pub open spec fn spec_requires_time_lock(self) -> bool {
        self is TimeLocked || self is Critical
    }

    /// Determine if this proposal type requires time-lock.
    pub fn requires_time_lock(&self) -> (r: bool)
        ensures
            r == self.spec_requires_time_lock(),
    {
        matches!(self, ProposalType::TimeLocked | ProposalType::Critical)
    }

    /// The threshold multiplier attached to each proposal type.
    pub open spec fn spec_threshold_multiplier(self) -> u32 {
        match self {
            ProposalType::Standard => 1,
            ProposalType::Critical => 2,
            ProposalType::Emergency => 3,
            ProposalType::TimeLocked => 1,
        }
    }

    /// Get the required threshold multiplier for this proposal type.
    pub fn get_threshold_multiplier(&self) -> (r: u32)
        ensures
            r == self.spec_threshold_multiplier(),
    {
        match self {
            ProposalType::Standard => 1,
            ProposalType::Critical => 2,
            ProposalType::Emergency => 3,
            ProposalType::TimeLocked => 1,
        }
    }
}

impl MultiSigConfig {
    /// The validity condition of a committee configuration:
    /// `0 < required <= critical <= emergency <= |admins|`, and every
    /// duration and limit strictly positive.
    pub open spec fn spec_valid(self) -> bool {
        &&& self.admins@.len() > 0
        &&& self.required_signatures > 0
        &&& self.required_signatures as int <= self.admins@.len()
        &&& self.critical_threshold >= self.required_signatures
        &&& self.emergency_threshold >= self.critical_threshold
        &&& self.emergency_threshold as int <= self.admins@.len()
        &&& self.time_lock_duration > 0
        &&& self.max_pending_proposals > 0
        &&& self.proposal_expiry_duration > 0
    }

    /// Validate configuration parameters.
    pub fn validate(&self) -> (r: bool)
        ensures
            r == self.spec_valid(),
    {
        !self.admins.is_empty() && self.required_signatures > 0
            && self.required_signatures as usize <= self.admins.len()
            && self.critical_threshold >= self.required_signatures
            && self.emergency_threshold >= self.critical_threshold
            && self.emergency_threshold as usize <= self.admins.len()
            && self.time_lock_duration > 0 && self.max_pending_proposals > 0
            && self.proposal_expiry_duration > 0
    }

    /// The threshold that a proposal of the given type must reach.
    pub open spec fn spec_required_for(self, proposal_type: ProposalType) -> u32 {
        match proposal_type {
            ProposalType::Standard => self.required_signatures,
            ProposalType::Critical => self.critical_threshold,
            ProposalType::TimeLocked => self.critical_threshold,
            ProposalType::Emergency => self.emergency_threshold,
        }
    }

    /// Get required signatures for a specific proposal type.
    pub fn get_required_signatures(&self, proposal_type: &ProposalType) -> (r: u32)
        ensures
            r == self.spec_required_for(*proposal_type),
    {
        match proposal_type {
            ProposalType::Standard => self.required_signatures,
            ProposalType::Critical | ProposalType::TimeLocked => self.critical_threshold,
            ProposalType::Emergency => self.emergency_threshold,
        }
    }

    /// A small committee-less configuration carrying the default limits.
    pub fn default_config() -> (r: Self)
        ensures
            r.admins@.len() == 0,
            r.required_signatures == 2,
            r.critical_threshold == 3,
            r.emergency_threshold == 4,
            r.time_lock_duration == DEFAULT_TIME_LOCK_DURATION,
            r.max_pending_proposals == DEFAULT_MAX_PENDING_PROPOSALS,
            r.proposal_expiry_duration == DEFAULT_PROPOSAL_EXPIRY_DURATION,
    {
        MultiSigConfig {
            admins: Vec::new(),
            required_signatures: 2,
            critical_threshold: 3,
            emergency_threshold: 4,
            time_lock_duration: DEFAULT_TIME_LOCK_DURATION,
            max_pending_proposals: DEFAULT_MAX_PENDING_PROPOSALS,
            proposal_expiry_duration: DEFAULT_PROPOSAL_EXPIRY_DURATION,
        }
    }
}

/// Law of threshold selection: under a valid committee configuration, every
/// risk class demands at least one signature, never more than the committee
/// has members, and the classes escalate: standard and time-locked proposals
/// never need more approvals than critical ones, and critical ones never
/// more than emergencies.
pub proof fn lemma_threshold_escalation(c: MultiSigConfig, t: ProposalType)
    requires
        c.spec_valid(),
    ensures
        1 <= c.spec_required_for(t) <= c.admins@.len(),
        c.spec_required_for(ProposalType::Standard) <= c.spec_required_for(ProposalType::Critical),
        c.spec_required_for(ProposalType::TimeLocked) == c.spec_required_for(
            ProposalType::Critical,
        ),
        c.spec_required_for(ProposalType::Critical) <= c.spec_required_for(
            ProposalType::Emergency,
        ),
{
}

/// A privileged action that a proposal requests.
#[derive(Clone, Debug)]
pub enum ProposalAction {
    SetRole(u64, UserRole),
    UpdateConfig(AccessControlConfig),
    AddAdmin(u64),
    RemoveAdmin(u64),
    Pause,
    Unpause,
    TransferAdmin(u64),
    /// Critical operation: Update multisig configuration
    UpdateMultisigConfig(MultiSigConfig),
    /// Critical operation: Emergency pause with reason
    EmergencyPause(String),
    /// Critical operation: Blacklist multiple users
    BatchBlacklist(Vec<u64>),
    /// Time-locked operation: Schedule contract upgrade
    ScheduleUpgrade(u64, u64),
    /// Emergency operation: Force admin transfer
    EmergencyAdminTransfer(u64),
}

impl ProposalAction {
    /// The risk classification of each action.
    pub open spec fn spec_classify(self) -> ProposalType {
        match self {
            ProposalAction::SetRole(_, _) => ProposalType::Standard,
            ProposalAction::UpdateConfig(_) => ProposalType::Critical,
            ProposalAction::AddAdmin(_) => ProposalType::Critical,
            ProposalAction::RemoveAdmin(_) => ProposalType::Critical,
            ProposalAction::Pause => ProposalType::Critical,
            ProposalAction::Unpause => ProposalType::Standard,
            ProposalAction::TransferAdmin(_) => ProposalType::Critical,
            ProposalAction::UpdateMultisigConfig(_) => ProposalType::Critical,
            ProposalAction::EmergencyPause(_) => ProposalType::Emergency,
            ProposalAction::BatchBlacklist(_) => ProposalType::Critical,
            ProposalAction::ScheduleUpgrade(_, _) => ProposalType::TimeLocked,
            ProposalAction::EmergencyAdminTransfer(_) => ProposalType::Emergency,
        }
    }

    /// Classify the action type based on its security implications.
    pub fn classify_type(&self) -> (r: ProposalType)
        ensures
            r == self.spec_classify(),
    {
        match self {
            ProposalAction::SetRole(_, _) => ProposalType::Standard,
            ProposalAction::UpdateConfig(_) => ProposalType::Critical,
            ProposalAction::AddAdmin(_) => ProposalType::Critical,
            ProposalAction::RemoveAdmin(_) => ProposalType::Critical,
            ProposalAction::Pause => ProposalType::Critical,
            ProposalAction::Unpause => ProposalType::Standard,
            ProposalAction::TransferAdmin(_) => ProposalType::Critical,
            ProposalAction::UpdateMultisigConfig(_) => ProposalType::Critical,
            ProposalAction::EmergencyPause(_) => ProposalType::Emergency,
            ProposalAction::BatchBlacklist(_) => ProposalType::Critical,
            ProposalAction::ScheduleUpgrade(_, _) => ProposalType::TimeLocked,
            ProposalAction::EmergencyAdminTransfer(_) => ProposalType::Emergency,
        }
    }

    /// Whether the effect of this action can be undone by a later action.
    pub fn is_reversible(&self) -> (r: bool)
        ensures
            r == matches!(*self,
                ProposalAction::SetRole(_, _)
                | ProposalAction::Pause
                | ProposalAction::Unpause
                | ProposalAction::BatchBlacklist(_)),
    {
        matches!(
            self,
            ProposalAction::SetRole(_, _)
                | ProposalAction::Pause
                | ProposalAction::Unpause
                | ProposalAction::BatchBlacklist(_)
        )
    }
}

/// One proposal's full record: the requested action, its classification,
/// the vote sets, and the deadlines captured at creation.
#[derive(Clone, Debug)]
pub struct PendingProposal {
    pub id: u64,
    pub proposer: u64,
    pub action: ProposalAction,
    pub proposal_type: ProposalType,
    pub approvals: Vec<u64>,
    pub rejections: Vec<u64>,
    pub executed: bool,
    pub created_at: u64,
    pub expiry: u64,
    /// For time-locked proposals: earliest execution time
    pub time_lock_until: Option<u64>,
    /// Number of signatures required, captured at creation
    pub required_signatures: u32,
}

impl PendingProposal {
    /// Vote-set sanity: approvals and rejections are duplicate-free and
    /// mutually disjoint, and at least one signature is required.
    pub open spec fn votes_wf(self) -> bool {
        &&& distinct_seq(self.approvals@)
        &&& distinct_seq(self.rejections@)
        &&& forall|a: u64| self.approvals@.contains(a) ==> !self.rejections@.contains(a)
        &&& self.required_signatures >= 1
    }
}

/// The record of a proposed single-admin handover.
#[derive(Clone, Copy, Debug, PartialEq, Eq)]
pub struct PendingAdminTransfer {
    pub proposed_admin: u64,
    pub proposer: u64,
    pub expiry: u64,
}

/// Running counters over the proposal lifecycle.
#[derive(Clone, Copy, Debug, PartialEq, Eq, Structural)]
pub struct ProposalStats {
    pub total_created: u64,
    pub total_executed: u64,
    pub total_rejected: u64,
    pub total_expired: u64,
    pub pending_count: u32,
}

} // verus!
