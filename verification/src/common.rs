//! Shared data model used across the platform's contracts: subscription
//! plans and tiers, attendance tracking, membership status, and analytics
//! records. These types carry no behaviour of their own; the engine and the
//! surrounding contracts exchange them as plain values.

use vstd::prelude::*;

verus! {

/// Subscription plan types: the billing frequencies a subscription can use.
#[derive(Clone, Debug, Eq, PartialEq)]
pub enum SubscriptionPlan {
    /// Daily subscription plan
    Daily,
    /// Monthly subscription plan
    Monthly,
    /// Pay-per-use plan
    PayPerUse,
}

/// Attendance actions that can be recorded.
#[derive(Clone, Debug, Eq, PartialEq)]
pub enum AttendanceAction {
    /// Clock in action (arrival)
    ClockIn,
    /// Clock out action (departure)
    ClockOut,
}

/// User types of the wider platform, with their permission levels.
#[derive(Clone, Debug, Eq, PartialEq)]
pub enum UserRole {
    /// Regular member
    Member,
    /// Staff member with elevated privileges
    Staff,
    /// Administrator with full access
    Admin,
    /// Temporary visitor with limited access
    Visitor,
}

/// The current state of a user's membership.
#[derive(Clone, Debug, Eq, PartialEq)]
pub enum MembershipStatus {
    /// Active membership
    Active,
    /// Temporarily paused membership
    Paused,
    /// Expired but within grace period (restricted access)
    GracePeriod,
    /// Expired membership
    Expired,
    /// Revoked membership
    Revoked,
    /// Inactive membership
    Inactive,
}

/// Time period options for analytics queries.
#[derive(Clone, Debug, Eq, PartialEq)]
pub enum TimePeriod {
    /// Daily time period
    Daily,
    /// Weekly time period
    Weekly,
    /// Monthly time period
    Monthly,
    /// Custom date range
    Custom,
}

/// A time window for querying attendance records, both ends inclusive.
#[derive(Clone, Debug, Eq, PartialEq)]
pub struct DateRange {
    /// Start timestamp
    pub start_time: u64,
    /// End timestamp
    pub end_time: u64,
}

/// Attendance frequency metrics for a specific time period.
#[derive(Clone, Debug, Eq, PartialEq)]
pub struct AttendanceFrequency {
    /// Time period
    pub period: TimePeriod,
    /// Period start timestamp
    pub period_start: u64,
    /// Period end timestamp
    pub period_end: u64,
    /// Total attendance records
    pub total_attendances: u32,
    /// Unique users count
    pub unique_users: u32,
    /// Average daily attendance
    pub average_daily_attendance: u32,
}

/// Peak hour analysis data.
#[derive(Clone, Debug, Eq, PartialEq)]
pub struct PeakHourData {
    /// Hour of day (0-23)
    pub hour: u32,
    /// Attendance count
    pub attendance_count: u32,
    /// Percentage of total
    pub percentage: u32,
}

/// Attendance distribution across days of the week.
#[derive(Clone, Debug, Eq, PartialEq)]
pub struct DayPattern {
    /// Day of week (0=Sunday, 6=Saturday)
    pub day_of_week: u32,
    /// Attendance count
    pub attendance_count: u32,
    /// Percentage of total
    pub percentage: u32,
}

/// The hierarchy of subscription tiers, from free to enterprise.
#[derive(Clone, Debug, Eq, PartialEq)]
pub enum TierLevel {
    /// Free tier with limited features
    Free,
    /// Basic paid tier
    Basic,
    /// Professional tier
    Pro,
    /// Enterprise tier with all features
    Enterprise,
}

/// Feature flags that can be enabled per subscription tier.
#[derive(Clone, Debug, Eq, PartialEq)]
pub enum TierFeature {
    /// Basic platform access
    BasicAccess,
    /// Priority customer support
    PrioritySupport,
    /// Advanced analytics and reporting
    AdvancedAnalytics,
    /// Custom branding options
    CustomBranding,
    /// API access for integrations
    ApiAccess,
    /// Unlimited data storage
    UnlimitedStorage,
    /// Team/organization management
    TeamManagement,
    /// White-label capabilities
    WhiteLabel,
}

/// Direction of a tier change.
#[derive(Clone, Debug, Eq, PartialEq)]
pub enum TierChangeType {
    /// Upgrading to a higher tier
    Upgrade,
    /// Downgrading to a lower tier
    Downgrade,
    /// Lateral move to same-level tier
    Lateral,
}

/// State of a tier change request.
#[derive(Clone, Debug, Eq, PartialEq)]
pub enum TierChangeStatus {
    /// Awaiting processing
    Pending,
    /// Approved, awaiting effective date
    Approved,
    /// Change completed
    Completed,
    /// Change cancelled
    Cancelled,
    /// Change rejected
    Rejected,
}

} // verus!
