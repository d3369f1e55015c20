use access_control::types::UserRole;

#[test]
fn test_user_role_hierarchy() {
    assert!(UserRole::Admin.has_access(&UserRole::Guest));
    assert!(UserRole::Admin.has_access(&UserRole::Member));
    assert!(UserRole::Admin.has_access(&UserRole::Admin));

    assert!(UserRole::Member.has_access(&UserRole::Guest));
    assert!(UserRole::Member.has_access(&UserRole::Member));
    assert!(!UserRole::Member.has_access(&UserRole::Admin));

    assert!(UserRole::Guest.has_access(&UserRole::Guest));
    assert!(!UserRole::Guest.has_access(&UserRole::Member));
    assert!(!UserRole::Guest.has_access(&UserRole::Admin));
}

#[test]
fn test_user_role_string_conversion() {
    assert_eq!(UserRole::Admin.as_str(), "Admin");
    assert_eq!(UserRole::Member.as_str(), "Member");
    assert_eq!(UserRole::Guest.as_str(), "Guest");

    assert_eq!(UserRole::parse_from_str("admin"), Some(UserRole::Admin));
    assert_eq!(UserRole::parse_from_str("MEMBER"), Some(UserRole::Member));
    assert_eq!(UserRole::parse_from_str("guest"), Some(UserRole::Guest));
    assert_eq!(UserRole::parse_from_str("invalid"), None);
}
