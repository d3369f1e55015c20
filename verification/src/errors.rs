//! Error taxonomy of the access-control engine.
//!
//! Every operation reports failure through one of these values; each is a
//! distinct, stable code suitable for programmatic handling and display.

use vstd::prelude::*;

verus! {

/// Every way an access-control operation can fail.
#[derive(Clone, Copy, Debug, PartialEq, Eq, Structural, PartialOrd, Ord)]
pub enum AccessControlError {
    /// Caller is not authorized to perform this action
    Unauthorized,
    /// Caller does not have admin privileges
    AdminRequired,
    /// Invalid role specified
    InvalidRole,
    /// User does not have the required role
    InsufficientRole,
    /// Role assignment failed
    RoleAssignmentFailed,
    /// Membership token contract not configured
    MembershipTokenNotSet,
    /// Cross-contract call to membership token failed
    MembershipTokenCallFailed,
    /// User does not have required membership token
    InsufficientMembership,
    /// Invalid membership token balance
    InvalidTokenBalance,
    /// Access control not initialized
    NotInitialized,
    /// Configuration error
    ConfigurationError,
    /// Storage operation failed
    StorageError,
    /// Invalid address provided
    InvalidAddress,
    /// Role hierarchy violation
    RoleHierarchyViolation,
    /// Maximum roles per user exceeded
    MaxRolesExceeded,
    /// Contract is paused
    ContractPaused,
    /// Multisig not enabled for this operation
    MultisigNotEnabled,
    /// Insufficient approvals for proposal execution
    InsufficientApprovals,
    /// Proposal not found
    ProposalNotFound,
    /// Proposal already executed
    ProposalAlreadyExecuted,
    /// Proposal has expired
    ProposalExpired,
    /// Time-lock not yet passed
    TimeLockActive,
    /// Already approved this proposal
    AlreadyApproved,
    /// Already rejected this proposal
    AlreadyRejected,
    /// Cannot execute proposal yet
    CannotExecuteProposal,
    /// Maximum pending proposals reached
    MaxProposalsReached,
    /// Invalid proposal type for this action
    InvalidProposalType,
    /// Invalid multisig configuration
    InvalidMultisigConfig,
    /// Threshold too high for number of admins
    ThresholdTooHigh,
    /// Threshold too low for security requirements
    ThresholdTooLow,
    /// Cannot remove last admin
    CannotRemoveLastAdmin,
    /// Duplicate admin address
    DuplicateAdmin,
    /// Not authorized as multisig admin
    NotMultisigAdmin,
    /// Proposal rejection threshold reached
    ProposalRejected,
}

/// Result type for access control operations.
pub type AccessControlResult<T> = Result<T, AccessControlError>;

impl AccessControlError {
    /// The stable numeric code of each error.
    pub open spec fn spec_code(self) -> u32 {
        match self {
            AccessControlError::Unauthorized => 100,
            AccessControlError::AdminRequired => 101,
            AccessControlError::InvalidRole => 102,
            AccessControlError::InsufficientRole => 103,
            AccessControlError::RoleAssignmentFailed => 104,
            AccessControlError::MembershipTokenNotSet => 105,
            AccessControlError::MembershipTokenCallFailed => 106,
            AccessControlError::InsufficientMembership => 107,
            AccessControlError::InvalidTokenBalance => 108,
            AccessControlError::NotInitialized => 109,
            AccessControlError::ConfigurationError => 110,
            AccessControlError::StorageError => 111,
            AccessControlError::InvalidAddress => 112,
            AccessControlError::RoleHierarchyViolation => 113,
            AccessControlError::MaxRolesExceeded => 114,
            AccessControlError::ContractPaused => 115,
            AccessControlError::MultisigNotEnabled => 116,
            AccessControlError::InsufficientApprovals => 117,
            AccessControlError::ProposalNotFound => 118,
            AccessControlError::ProposalAlreadyExecuted => 119,
            AccessControlError::ProposalExpired => 120,
            AccessControlError::TimeLockActive => 121,
            AccessControlError::AlreadyApproved => 122,
            AccessControlError::AlreadyRejected => 123,
            AccessControlError::CannotExecuteProposal => 124,
            AccessControlError::MaxProposalsReached => 125,
            AccessControlError::InvalidProposalType => 126,
            AccessControlError::InvalidMultisigConfig => 127,
            AccessControlError::ThresholdTooHigh => 128,
            AccessControlError::ThresholdTooLow => 129,
            AccessControlError::CannotRemoveLastAdmin => 130,
            AccessControlError::DuplicateAdmin => 131,
            AccessControlError::NotMultisigAdmin => 132,
            AccessControlError::ProposalRejected => 133,
        }
    }

    /// The stable numeric code of this error.
    pub fn code(&self) -> (r: u32)
        ensures
            r == self.spec_code(),
    {
        match self {
            AccessControlError::Unauthorized => 100,
            AccessControlError::AdminRequired => 101,
            AccessControlError::InvalidRole => 102,
            AccessControlError::InsufficientRole => 103,
            AccessControlError::RoleAssignmentFailed => 104,
            AccessControlError::MembershipTokenNotSet => 105,
            AccessControlError::MembershipTokenCallFailed => 106,
            AccessControlError::InsufficientMembership => 107,
            AccessControlError::InvalidTokenBalance => 108,
            AccessControlError::NotInitialized => 109,
            AccessControlError::ConfigurationError => 110,
            AccessControlError::StorageError => 111,
            AccessControlError::InvalidAddress => 112,
            AccessControlError::RoleHierarchyViolation => 113,
            AccessControlError::MaxRolesExceeded => 114,
            AccessControlError::ContractPaused => 115,
            AccessControlError::MultisigNotEnabled => 116,
            AccessControlError::InsufficientApprovals => 117,
            AccessControlError::ProposalNotFound => 118,
            AccessControlError::ProposalAlreadyExecuted => 119,
            AccessControlError::ProposalExpired => 120,
            AccessControlError::TimeLockActive => 121,
            AccessControlError::AlreadyApproved => 122,
            AccessControlError::AlreadyRejected => 123,
            AccessControlError::CannotExecuteProposal => 124,
            AccessControlError::MaxProposalsReached => 125,
            AccessControlError::InvalidProposalType => 126,
            AccessControlError::InvalidMultisigConfig => 127,
            AccessControlError::ThresholdTooHigh => 128,
            AccessControlError::ThresholdTooLow => 129,
            AccessControlError::CannotRemoveLastAdmin => 130,
            AccessControlError::DuplicateAdmin => 131,
            AccessControlError::NotMultisigAdmin => 132,
            AccessControlError::ProposalRejected => 133,
        }
    }

    /// The human-readable description of each error.
    pub open spec fn spec_description(self) -> Seq<char> {
        match self {
            AccessControlError::Unauthorized => "Caller is not authorized to perform this action"@,
            AccessControlError::AdminRequired => "Admin privileges required for this operation"@,
            AccessControlError::InvalidRole => "Invalid role specified"@,
            AccessControlError::InsufficientRole => "User does not have the required role"@,
            AccessControlError::RoleAssignmentFailed => "Failed to assign role to user"@,
            AccessControlError::MembershipTokenNotSet => "Membership token contract not configured"@,
            AccessControlError::MembershipTokenCallFailed => "Cross-contract call to membership token failed"@,
            AccessControlError::InsufficientMembership => "User does not have required membership token"@,
            AccessControlError::InvalidTokenBalance => "Invalid membership token balance"@,
            AccessControlError::NotInitialized => "Access control system not initialized"@,
            AccessControlError::ConfigurationError => "Access control configuration error"@,
            AccessControlError::StorageError => "Storage operation failed"@,
            AccessControlError::InvalidAddress => "Invalid address provided"@,
            AccessControlError::RoleHierarchyViolation => "Role hierarchy violation"@,
            AccessControlError::MaxRolesExceeded => "Maximum roles per user exceeded"@,
            AccessControlError::ContractPaused => "Contract is currently paused"@,
            AccessControlError::MultisigNotEnabled => "Multisig not enabled for this operation"@,
            AccessControlError::InsufficientApprovals => "Insufficient approvals for proposal execution"@,
            AccessControlError::ProposalNotFound => "Proposal not found"@,
            AccessControlError::ProposalAlreadyExecuted => "Proposal already executed"@,
            AccessControlError::ProposalExpired => "Proposal has expired"@,
            AccessControlError::TimeLockActive => "Time-lock period not yet passed"@,
            AccessControlError::AlreadyApproved => "Already approved this proposal"@,
            AccessControlError::AlreadyRejected => "Already rejected this proposal"@,
            AccessControlError::CannotExecuteProposal => "Cannot execute proposal yet"@,
            AccessControlError::MaxProposalsReached => "Maximum pending proposals reached"@,
            AccessControlError::InvalidProposalType => "Invalid proposal type for this action"@,
            AccessControlError::InvalidMultisigConfig => "Invalid multisig configuration"@,
            AccessControlError::ThresholdTooHigh => "Threshold too high for number of admins"@,
            AccessControlError::ThresholdTooLow => "Threshold too low for security requirements"@,
            AccessControlError::CannotRemoveLastAdmin => "Cannot remove the last admin"@,
            AccessControlError::DuplicateAdmin => "Duplicate admin address"@,
            AccessControlError::NotMultisigAdmin => "Not authorized as multisig admin"@,
            AccessControlError::ProposalRejected => "Proposal rejection threshold reached"@,
        }
    }

    /// Get a human-readable description of the error.
    pub fn description(&self) -> (r: &'static str)
        ensures
            r@ == self.spec_description(),
    {
        match self {
            AccessControlError::Unauthorized => "Caller is not authorized to perform this action",
            AccessControlError::AdminRequired => "Admin privileges required for this operation",
            AccessControlError::InvalidRole => "Invalid role specified",
            AccessControlError::InsufficientRole => "User does not have the required role",
            AccessControlError::RoleAssignmentFailed => "Failed to assign role to user",
            AccessControlError::MembershipTokenNotSet => "Membership token contract not configured",
            AccessControlError::MembershipTokenCallFailed => "Cross-contract call to membership token failed",
            AccessControlError::InsufficientMembership => "User does not have required membership token",
            AccessControlError::InvalidTokenBalance => "Invalid membership token balance",
            AccessControlError::NotInitialized => "Access control system not initialized",
            AccessControlError::ConfigurationError => "Access control configuration error",
            AccessControlError::StorageError => "Storage operation failed",
            AccessControlError::InvalidAddress => "Invalid address provided",
            AccessControlError::RoleHierarchyViolation => "Role hierarchy violation",
            AccessControlError::MaxRolesExceeded => "Maximum roles per user exceeded",
            AccessControlError::ContractPaused => "Contract is currently paused",
            AccessControlError::MultisigNotEnabled => "Multisig not enabled for this operation",
            AccessControlError::InsufficientApprovals => "Insufficient approvals for proposal execution",
            AccessControlError::ProposalNotFound => "Proposal not found",
            AccessControlError::ProposalAlreadyExecuted => "Proposal already executed",
            AccessControlError::ProposalExpired => "Proposal has expired",
            AccessControlError::TimeLockActive => "Time-lock period not yet passed",
            AccessControlError::AlreadyApproved => "Already approved this proposal",
            AccessControlError::AlreadyRejected => "Already rejected this proposal",
            AccessControlError::CannotExecuteProposal => "Cannot execute proposal yet",
            AccessControlError::MaxProposalsReached => "Maximum pending proposals reached",
            AccessControlError::InvalidProposalType => "Invalid proposal type for this action",
            AccessControlError::InvalidMultisigConfig => "Invalid multisig configuration",
            AccessControlError::ThresholdTooHigh => "Threshold too high for number of admins",
            AccessControlError::ThresholdTooLow => "Threshold too low for security requirements",
            AccessControlError::CannotRemoveLastAdmin => "Cannot remove the last admin",
            AccessControlError::DuplicateAdmin => "Duplicate admin address",
            AccessControlError::NotMultisigAdmin => "Not authorized as multisig admin",
            AccessControlError::ProposalRejected => "Proposal rejection threshold reached",
        }
    }

    /// Whether this is a critical error that should halt execution.
    pub fn is_critical(&self) -> (r: bool)
        ensures
            r == matches!(*self,
                AccessControlError::NotInitialized
                | AccessControlError::ConfigurationError
                | AccessControlError::StorageError
                | AccessControlError::ContractPaused),
    {
        matches!(
            self,
            AccessControlError::NotInitialized
                | AccessControlError::ConfigurationError
                | AccessControlError::StorageError
                | AccessControlError::ContractPaused
        )
    }

    /// Whether this error is related to permissions.
    pub fn is_permission_error(&self) -> (r: bool)
        ensures
            r == matches!(*self,
                AccessControlError::Unauthorized
                | AccessControlError::AdminRequired
                | AccessControlError::InsufficientRole
                | AccessControlError::InsufficientMembership),
    {
        matches!(
            self,
            AccessControlError::Unauthorized
                | AccessControlError::AdminRequired
                | AccessControlError::InsufficientRole
                | AccessControlError::InsufficientMembership
        )
    }

    /// Whether this error is related to membership tokens.
    pub fn is_membership_error(&self) -> (r: bool)
        ensures
            r == matches!(*self,
                AccessControlError::MembershipTokenNotSet
                | AccessControlError::MembershipTokenCallFailed
                | AccessControlError::InsufficientMembership
                | AccessControlError::InvalidTokenBalance),
    {
        matches!(
            self,
            AccessControlError::MembershipTokenNotSet
                | AccessControlError::MembershipTokenCallFailed
                | AccessControlError::InsufficientMembership
                | AccessControlError::InvalidTokenBalance
        )
    }
}

} // verus!
