use access_control::errors::AccessControlError;

#[test]
fn test_error_descriptions() {
    assert!(!AccessControlError::Unauthorized.description().is_empty());
    assert!(!AccessControlError::AdminRequired.description().is_empty());
    assert!(!AccessControlError::InvalidRole.description().is_empty());
}

#[test]
fn test_error_categories() {
    assert!(AccessControlError::NotInitialized.is_critical());
    assert!(!AccessControlError::Unauthorized.is_critical());

    assert!(AccessControlError::Unauthorized.is_permission_error());
    assert!(!AccessControlError::InvalidRole.is_permission_error());

    assert!(AccessControlError::MembershipTokenNotSet.is_membership_error());
    assert!(!AccessControlError::Unauthorized.is_membership_error());
}

#[test]
fn test_error_codes() {
    // Ensure error codes are unique and in expected range
    assert_eq!(AccessControlError::Unauthorized.code(), 100);
    assert_eq!(AccessControlError::AdminRequired.code(), 101);
    assert_eq!(AccessControlError::ContractPaused.code(), 115);
}
