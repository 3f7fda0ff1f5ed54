use stack_error::StatusCode;

const ALL: [StatusCode; 17] = [
    StatusCode::Success,
    StatusCode::Unknown,
    StatusCode::Unsupported,
    StatusCode::Unexpected,
    StatusCode::Internal,
    StatusCode::InvalidArguments,
    StatusCode::Cancelled,
    StatusCode::InvalidSyntax,
    StatusCode::RuntimeResourcesExhausted,
    StatusCode::RateLimited,
    StatusCode::UserNotFound,
    StatusCode::UnsupportedPasswordType,
    StatusCode::UserPasswordMismatch,
    StatusCode::AuthHeaderNotFound,
    StatusCode::InvalidAuthHeader,
    StatusCode::AccessDenied,
    StatusCode::PermissionDenied,
];

#[test]
fn is_success_holds_of_zero_alone() {
    assert!(StatusCode::is_success(0));
    assert!(!StatusCode::is_success(1));
    assert!(!StatusCode::is_success(1000));
    assert!(!StatusCode::is_success(7006));
    assert!(!StatusCode::is_success(u32::MAX));
    for code in ALL {
        assert_eq!(StatusCode::is_success(code.as_u32()), code == StatusCode::Success);
    }
}

#[test]
fn from_u32_finds_the_members() {
    assert_eq!(StatusCode::from_u32(0), Some(StatusCode::Success));
    assert_eq!(StatusCode::from_u32(1004), Some(StatusCode::InvalidArguments));
    assert_eq!(StatusCode::from_u32(9999), None);
    for code in ALL {
        assert_eq!(StatusCode::from_u32(code.as_u32()), Some(code));
    }
}

#[test]
fn from_u32_rejects_numbers_between_the_ranges() {
    for n in [1, 999, 1006, 1999, 2001, 5999, 6002, 6999, 7007, u32::MAX] {
        assert_eq!(StatusCode::from_u32(n), None);
    }
}

#[test]
fn from_u32_is_none_outside_the_registry() {
    let members: Vec<u32> = ALL.iter().map(|c| c.as_u32()).collect();
    for n in 0..8000u32 {
        assert_eq!(StatusCode::from_u32(n).is_some(), members.contains(&n));
    }
}

#[test]
fn numbers_of_the_codes_are_stable() {
    let numbers: Vec<u32> = ALL.iter().map(|c| c.as_u32()).collect();
    assert_eq!(
        numbers,
        vec![
            0, 1000, 1001, 1002, 1003, 1004, 1005, 2000, 6000, 6001, 7000, 7001, 7002, 7003, 7004,
            7005, 7006
        ]
    );
}

#[test]
fn codes_are_ordered_by_their_numbers() {
    for a in ALL {
        for b in ALL {
            assert_eq!(a < b, a.as_u32() < b.as_u32());
            assert_eq!(a <= b, a.as_u32() <= b.as_u32());
            assert_eq!(a == b, a.as_u32() == b.as_u32());
            assert_eq!(a.partial_cmp(&b), a.as_u32().partial_cmp(&b.as_u32()));
            assert_eq!(a.cmp(&b), a.as_u32().cmp(&b.as_u32()));
        }
    }
    let mut shuffled = vec![
        StatusCode::PermissionDenied,
        StatusCode::Success,
        StatusCode::InvalidSyntax,
        StatusCode::Unknown,
        StatusCode::RateLimited,
    ];
    shuffled.sort();
    assert_eq!(
        shuffled,
        vec![
            StatusCode::Success,
            StatusCode::Unknown,
            StatusCode::InvalidSyntax,
            StatusCode::RateLimited,
            StatusCode::PermissionDenied,
        ]
    );
}

#[test]
fn a_code_is_displayed_by_its_name() {
    assert_eq!(StatusCode::Success.to_string(), "Success");
    assert_eq!(StatusCode::UserNotFound.to_string(), "UserNotFound");
    assert_eq!(StatusCode::RuntimeResourcesExhausted.as_str(), "RuntimeResourcesExhausted");
    for code in ALL {
        assert_eq!(code.to_string(), format!("{:?}", code));
        assert_eq!(code.as_str(), code.to_string());
    }
}
