use access_control::common::AttendanceAction;
use access_control::common::MembershipStatus;
use access_control::common::SubscriptionPlan;
use access_control::common::TierChangeStatus;
use access_control::common::TierChangeType;
use access_control::common::TierFeature;
use access_control::common::TierLevel;
use access_control::common::UserRole;

#[test]
fn test_subscription_plan_variants() {
    let daily = SubscriptionPlan::Daily;
    let monthly = SubscriptionPlan::Monthly;
    let pay_per_use = SubscriptionPlan::PayPerUse;

    assert_eq!(daily, SubscriptionPlan::Daily);
    assert_eq!(monthly, SubscriptionPlan::Monthly);
    assert_eq!(pay_per_use, SubscriptionPlan::PayPerUse);
}

#[test]
fn test_attendance_action_variants() {
    let clock_in = AttendanceAction::ClockIn;
    let clock_out = AttendanceAction::ClockOut;

    assert_eq!(clock_in, AttendanceAction::ClockIn);
    assert_eq!(clock_out, AttendanceAction::ClockOut);
}

#[test]
fn test_user_role_variants() {
    let member = UserRole::Member;
    let staff = UserRole::Staff;
    let admin = UserRole::Admin;
    let visitor = UserRole::Visitor;

    assert_eq!(member, UserRole::Member);
    assert_eq!(staff, UserRole::Staff);
    assert_eq!(admin, UserRole::Admin);
    assert_eq!(visitor, UserRole::Visitor);
}

#[test]
fn test_membership_status_variants() {
    let active = MembershipStatus::Active;
    let paused = MembershipStatus::Paused;
    let expired = MembershipStatus::Expired;
    let revoked = MembershipStatus::Revoked;
    let inactive = MembershipStatus::Inactive;

    assert_eq!(active, MembershipStatus::Active);
    assert_eq!(paused, MembershipStatus::Paused);
    assert_eq!(expired, MembershipStatus::Expired);
    assert_eq!(revoked, MembershipStatus::Revoked);
    assert_eq!(inactive, MembershipStatus::Inactive);
}

#[test]
fn test_clone_derive() {
    let plan = SubscriptionPlan::Monthly;
    let cloned = plan.clone();
    assert_eq!(plan, cloned);
}

#[test]
fn test_tier_level_variants() {
    let free = TierLevel::Free;
    let basic = TierLevel::Basic;
    let pro = TierLevel::Pro;
    let enterprise = TierLevel::Enterprise;

    assert_eq!(free, TierLevel::Free);
    assert_eq!(basic, TierLevel::Basic);
    assert_eq!(pro, TierLevel::Pro);
    assert_eq!(enterprise, TierLevel::Enterprise);
}

#[test]
fn test_tier_feature_variants() {
    let basic_access = TierFeature::BasicAccess;
    let priority_support = TierFeature::PrioritySupport;
    let advanced_analytics = TierFeature::AdvancedAnalytics;
    let api_access = TierFeature::ApiAccess;

    assert_eq!(basic_access, TierFeature::BasicAccess);
    assert_eq!(priority_support, TierFeature::PrioritySupport);
    assert_eq!(advanced_analytics, TierFeature::AdvancedAnalytics);
    assert_eq!(api_access, TierFeature::ApiAccess);
}

#[test]
fn test_tier_change_type_variants() {
    let upgrade = TierChangeType::Upgrade;
    let downgrade = TierChangeType::Downgrade;
    let lateral = TierChangeType::Lateral;

    assert_eq!(upgrade, TierChangeType::Upgrade);
    assert_eq!(downgrade, TierChangeType::Downgrade);
    assert_eq!(lateral, TierChangeType::Lateral);
}

#[test]
fn test_tier_change_status_variants() {
    let pending = TierChangeStatus::Pending;
    let approved = TierChangeStatus::Approved;
    let completed = TierChangeStatus::Completed;
    let cancelled = TierChangeStatus::Cancelled;
    let rejected = TierChangeStatus::Rejected;

    assert_eq!(pending, TierChangeStatus::Pending);
    assert_eq!(approved, TierChangeStatus::Approved);
    assert_eq!(completed, TierChangeStatus::Completed);
    assert_eq!(cancelled, TierChangeStatus::Cancelled);
    assert_eq!(rejected, TierChangeStatus::Rejected);
}
