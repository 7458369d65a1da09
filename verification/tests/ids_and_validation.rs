use user_accounts::models::{AuthenticateUser, UpdateUser, User, ValidationIssue};
use user_accounts::object_id::UserId;
use user_accounts::validation::{long_enough, valid_email, valid_role};

fn user(username: &str, email: &str, role: &str) -> User {
    User {
        username: username.to_string(),
        password: "password".to_string(),
        email: email.to_string(),
        organization: "ACME.inc".to_string(),
        role: role.to_string(),
    }
}

#[test]
fn id_is_written_as_lower_case_hex() {
    let id = UserId { bytes: [0x5f, 0x1a, 0x00, 0xff, 0x10, 0x09, 0xab, 0xcd, 0xef, 0x01, 0x23, 0x45] };
    assert_eq!(id.to_hex(), "5f1a00ff1009abcdef012345");
}

#[test]
fn id_text_of_either_case_is_read() {
    let lower = UserId::parse("5f1a00ff1009abcdef012345").unwrap();
    let upper = UserId::parse("5F1A00FF1009ABCDEF012345").unwrap();
    assert_eq!(lower, upper);
    assert_eq!(lower.bytes, [0x5f, 0x1a, 0x00, 0xff, 0x10, 0x09, 0xab, 0xcd, 0xef, 0x01, 0x23, 0x45]);
}

#[test]
fn id_text_must_be_24_hex_digits() {
    assert_eq!(UserId::parse("5f1a00ff1009abcdef01234"), None);
    assert_eq!(UserId::parse("5f1a00ff1009abcdef0123456"), None);
    assert_eq!(UserId::parse("5f1a00ff1009abcdef01234g"), None);
    assert_eq!(UserId::parse(""), None);
    assert_eq!(UserId::parse("5f1a00ff1009abcdef0123 5"), None);
}

#[test]
fn id_round_trips_through_its_text() {
    let id = UserId { bytes: [255, 0, 1, 2, 3, 4, 5, 6, 7, 8, 9, 200] };
    assert_eq!(UserId::parse(&id.to_hex()), Some(id));
}

#[test]
fn length_counts_characters_not_bytes() {
    assert!(long_enough("abc"));
    assert!(!long_enough("ab"));
    assert!(long_enough("äöü"));
    assert!(!long_enough("äö"));
}

#[test]
fn email_needs_an_at_sign_and_a_domain() {
    assert!(valid_email("david@gmail.com"));
    assert!(!valid_email("david"));
    assert!(!valid_email("david@"));
    assert!(!valid_email(""));
}

#[test]
fn role_pattern_is_searched_anywhere() {
    assert!(valid_role("Admin"));
    assert!(valid_role("User"));
    assert!(valid_role("SuperUser"));
    assert!(valid_role("Administrator"));
    assert!(!valid_role("admin"));
    assert!(!valid_role("Guest"));
    assert!(!valid_role(""));
}

#[test]
fn valid_sign_up_request_passes() {
    assert_eq!(user("david", "david@gmail.com", "Admin").validate(), Ok(()));
}

#[test]
fn every_broken_field_is_reported_in_order() {
    assert_eq!(
        user("da", "not-an-email", "Guest").validate(),
        Err(vec![ValidationIssue::UsernameTooShort, ValidationIssue::InvalidEmail, ValidationIssue::InvalidRole])
    );
    assert_eq!(user("david", "nope", "User").validate(), Err(vec![ValidationIssue::InvalidEmail]));
    assert_eq!(user("david", "david@gmail.com", "root").validate(), Err(vec![ValidationIssue::InvalidRole]));
}

#[test]
fn update_request_checks_only_given_fields() {
    let none = UpdateUser { username: None, email: None };
    assert_eq!(none.validate(), Ok(()));
    let both_bad = UpdateUser { username: Some("x".to_string()), email: Some("y".to_string()) };
    assert_eq!(both_bad.validate(), Err(vec![ValidationIssue::UsernameTooShort, ValidationIssue::InvalidEmail]));
    let email_ok = UpdateUser { username: None, email: Some("test123@email.com".to_string()) };
    assert_eq!(email_ok.validate(), Ok(()));
}

#[test]
fn login_request_needs_a_three_character_name() {
    let ok = AuthenticateUser { username: "bob".to_string(), password: String::new() };
    assert_eq!(ok.validate(), Ok(()));
    let short = AuthenticateUser { username: "bo".to_string(), password: "pw".to_string() };
    assert_eq!(short.validate(), Err(vec![ValidationIssue::UsernameTooShort]));
}

#[test]
fn issues_name_their_fields() {
    assert_eq!(ValidationIssue::UsernameTooShort.field_name(), "username");
    assert_eq!(ValidationIssue::InvalidEmail.field_name(), "email");
    assert_eq!(ValidationIssue::InvalidRole.field_name(), "role");
}
