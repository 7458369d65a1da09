use user_accounts::controller::{may_view_user, reply_for, Reply};
use user_accounts::models::{bearer_token, token_from_header, AuthHeader, AuthRejection, AuthorizedUser, Claims, Info, UpdateUser};
use user_accounts::object_id::UserId;
use user_accounts::password::check_password;
use user_accounts::service::{
    authenticate, created_user, deleted, found_user, hash_password, issue_claims, marshall_user, parse_user_id,
    plan_signup, signup_document, update_fields, updated, DbError, UserRecord, UserServiceResult, TOKEN_LIFETIME,
};

const ID: [u8; 12] = [0x5f, 0x1a, 0x00, 0xff, 0x10, 0x09, 0xab, 0xcd, 0xef, 0x01, 0x23, 0x45];
const ID_HEX: &str = "5f1a00ff1009abcdef012345";

fn record(password_hash: &str, role: &str) -> UserRecord {
    UserRecord {
        id: UserId { bytes: ID },
        username: "david".to_string(),
        password: password_hash.to_string(),
        email: "david@gmail.com".to_string(),
        organization: "ACME.inc".to_string(),
        role: role.to_string(),
    }
}

fn message<T>(r: UserServiceResult<T>) -> String {
    match r {
        Ok(_) => panic!("expected an error"),
        Err(e) => e.to_string(),
    }
}

fn caller(sub: &str, role: &str) -> AuthorizedUser {
    AuthorizedUser {
        token: "Bearer t".to_string(),
        sub: sub.to_string(),
        role: role.to_string(),
        organization: "ACME.inc".to_string(),
    }
}

#[test]
fn hashed_password_verifies() {
    let h = hash_password("password").unwrap();
    assert_eq!(h.len(), 60);
    assert!(h.starts_with("$2b$04$"));
    assert_eq!(check_password("password", &h), Some(true));
    assert_eq!(check_password("Password", &h), Some(false));
}

#[test]
fn password_with_nul_is_refused() {
    assert_eq!(message(hash_password("pass\0word")), "Failure hashing password");
    assert_eq!(check_password("pass\0word", "$2a$04$UuTkLRZZ6QofpDOlMz32MuuxEHA43WOemOYHPz6.SjsVsyO1tDU96"), None);
}

#[test]
fn known_hash_is_checked() {
    let h = "$2a$04$UuTkLRZZ6QofpDOlMz32MuuxEHA43WOemOYHPz6.SjsVsyO1tDU96";
    assert_eq!(check_password("password", h), Some(true));
    assert_eq!(check_password("wrong", h), Some(false));
    assert_eq!(check_password("password", "not a hash"), None);
}

#[test]
fn sign_up_refuses_taken_names_and_emails() {
    let taken_name = plan_signup("david", "password", "david@gmail.com", "ACME.inc", "Admin", true, false);
    assert_eq!(message(taken_name), "Username already in use.");
    let taken_email = plan_signup("david", "password", "david@gmail.com", "ACME.inc", "Admin", false, true);
    assert_eq!(message(taken_email), "Username already in use.");
    let bad_password = plan_signup("david", "a\0b", "david@gmail.com", "ACME.inc", "Admin", false, false);
    assert_eq!(message(bad_password), "Failure hashing password");
}

#[test]
fn sign_up_document_holds_a_hash() {
    let doc = plan_signup("david", "password", "david@gmail.com", "ACME.inc", "Admin", false, false).unwrap();
    assert_eq!(doc.username, "david");
    assert_eq!(doc.email, "david@gmail.com");
    assert_eq!(doc.organization, "ACME.inc");
    assert_eq!(doc.role, "Admin");
    assert!(!doc.verified);
    assert_ne!(doc.password, "password");
    assert_eq!(check_password("password", &doc.password), Some(true));
}

#[test]
fn test_create_and_update_user() {
    let doc = plan_signup("david", "password", "david@gmail.com", "ACME.inc", "Admin", false, false);
    assert!(doc.is_ok(), "Create user test failed");
    let inserted_one = created_user(Ok(UserId { bytes: ID })).unwrap();
    assert_eq!(inserted_one._id, ID_HEX);

    let target = parse_user_id(&inserted_one._id).unwrap();
    assert_eq!(target.bytes, ID);
    let updates = UpdateUser { username: None, email: Some("test123@email.com".to_owned()) };
    let fields = update_fields(updates);
    assert_eq!(fields.len(), 1);
    assert_eq!(fields[0].key, "email");
    assert_eq!(fields[0].value, "test123@email.com");
    match updated(Ok(())) {
        Ok(Some(d)) => assert_eq!(true, d.success),
        _ => panic!("Failed updating user"),
    }
    match deleted(Ok(())) {
        Ok(Some(d)) => assert_eq!(true, d.success),
        _ => panic!("Failed deleting user"),
    }
}

#[test]
fn failed_writes_are_reported() {
    assert_eq!(message(created_user(Err(DbError))), "Could not create user.");
    assert_eq!(message(updated(Err(DbError))), "User not found.");
    assert_eq!(message(deleted(Err(DbError))), "Failure finding user.");
    assert_eq!(message(found_user(Err(DbError))), "Failure finding user.");
}

#[test]
fn bad_path_identifier_is_refused() {
    assert_eq!(message(parse_user_id("david")), "Failure making oid object.");
    assert_eq!(parse_user_id("5F1A00FF1009ABCDEF012345").unwrap().bytes, ID);
}

#[test]
fn update_sets_email_before_username() {
    let fields = update_fields(UpdateUser { username: Some("dave".to_string()), email: Some("d@x.io".to_string()) });
    let pairs: Vec<(String, String)> = fields.into_iter().map(|f| (f.key, f.value)).collect();
    assert_eq!(pairs, vec![("email".to_string(), "d@x.io".to_string()), ("username".to_string(), "dave".to_string())]);
    assert!(update_fields(UpdateUser { username: None, email: None }).is_empty());
}

#[test]
fn marshalled_user_has_no_password() {
    let m = marshall_user(&record("$2b$04$hash", "User"));
    assert_eq!(m._id, ID_HEX);
    assert_eq!(m.username, "david");
    assert_eq!(m.email, "david@gmail.com");
    assert_eq!(m.organization, "ACME.inc");
    assert_eq!(m.role, "User");
    let found = found_user(Ok(Some(record("h", "Admin")))).unwrap().unwrap();
    assert_eq!(found._id, ID_HEX);
}

#[test]
fn claims_expire_after_two_days() {
    let c = issue_claims(&record("h", "Admin"), true, 1_600_000_000).unwrap();
    assert_eq!(c.sub, ID_HEX);
    assert_eq!(c.role, "Admin");
    assert_eq!(c.organization, "ACME.inc");
    assert_eq!(c.exp, 1_600_000_000 + 172800);
    assert_eq!(TOKEN_LIFETIME, 172800);
    assert_eq!(message(issue_claims(&record("h", "Admin"), false, 5)), "Authentication failed.");
}

#[test]
fn login_outcomes() {
    let h = "$2a$04$UuTkLRZZ6QofpDOlMz32MuuxEHA43WOemOYHPz6.SjsVsyO1tDU96";
    assert_eq!(message(authenticate(Err(DbError), "password", 0).unwrap()), "Could not query db.");
    assert_eq!(message(authenticate(Ok(None), "password", 0).unwrap()), "User not found.");
    assert_eq!(message(authenticate(Ok(Some(record(h, "User"))), "nope", 0).unwrap()), "Authentication failed.");
    assert!(authenticate(Ok(Some(record("garbage", "User"))), "password", 0).is_none());
    assert!(authenticate(Ok(Some(record(h, "User"))), "password", usize::MAX).is_none());
    let c = authenticate(Ok(Some(record(h, "User"))), "password", 100).unwrap().unwrap();
    assert_eq!(c.exp, 100 + 172800);
    assert_eq!(c.sub, ID_HEX);
}

#[test]
fn signed_up_user_logs_in() {
    let doc = plan_signup("david", "s3cret", "david@gmail.com", "ACME.inc", "Admin", false, false).unwrap();
    let stored = record(&doc.password, &doc.role);
    let c = authenticate(Ok(Some(stored)), "s3cret", 7).unwrap().unwrap();
    assert_eq!(c.role, "Admin");
}

#[test]
fn bearer_token_needs_exactly_one_space() {
    assert_eq!(bearer_token("Bearer abc.def"), Some("abc.def".to_string()));
    assert_eq!(bearer_token(" abc"), Some("abc".to_string()));
    assert_eq!(bearer_token("Bearer "), Some(String::new()));
    assert_eq!(bearer_token("Bearer"), None);
    assert_eq!(bearer_token("Bearer  abc"), None);
    assert_eq!(bearer_token("Bearer a b"), None);
    assert_eq!(bearer_token(""), None);
}

#[test]
fn header_rejections() {
    assert_eq!(token_from_header(&AuthHeader::Missing).unwrap_err().message(), "Not Authorized");
    assert_eq!(
        token_from_header(&AuthHeader::Unreadable("failed to convert header to a str".to_string())).unwrap_err().message(),
        "failed to convert header to a str"
    );
    assert_eq!(token_from_header(&AuthHeader::Present("token".to_string())).unwrap_err().message(), "Bad Headers");
    assert_eq!(token_from_header(&AuthHeader::Present("Bearer tok".to_string())).unwrap(), "tok");
}

#[test]
fn caller_comes_from_decoded_claims() {
    let header = AuthHeader::Present("Bearer tok".to_string());
    let claims = Claims { sub: ID_HEX.to_string(), organization: "ACME.inc".to_string(), role: "Admin".to_string(), exp: 9 };
    let u = AuthorizedUser::from_request(&header, Some(claims)).unwrap();
    assert_eq!(u.token, "Bearer tok");
    assert_eq!(u.sub, ID_HEX);
    assert_eq!(u.role, "Admin");
    assert_eq!(u.organization, "ACME.inc");
    match AuthorizedUser::from_request(&header, None) {
        Err(AuthRejection::NotAuthorized) => {}
        _ => panic!("undecodable token must be refused"),
    }
    match AuthorizedUser::from_request(&AuthHeader::Present("x".to_string()), None) {
        Err(AuthRejection::BadHeaders) => {}
        _ => panic!("malformed header must be refused"),
    }
}

#[test]
fn only_an_admin_reads_own_record() {
    let info = Info { user_id: ID_HEX.to_string() };
    assert!(may_view_user(&Some(caller(ID_HEX, "Admin")), &info));
    assert!(!may_view_user(&Some(caller(ID_HEX, "User")), &info));
    assert!(!may_view_user(&Some(caller("000000000000000000000000", "Admin")), &info));
    assert!(!may_view_user(&None, &info));
}

#[test]
fn replies_follow_outcomes() {
    match reply_for::<u8>(Some(Ok(3))) {
        Reply::Success(v) => assert_eq!(v, 3),
        _ => panic!("expected 200"),
    }
    match reply_for::<u8>(Some(parse_user_id("bad").map(|_| 0u8))) {
        Reply::BadRequest(e) => assert_eq!(e.message(), "Failure making oid object."),
        _ => panic!("expected 400"),
    }
    assert!(matches!(reply_for::<u8>(None), Reply::InternalServerError));
}

#[test]
fn signup_document_takes_the_hash_outcome() {
    let doc = signup_document("david", "d@x.io", "ACME.inc", "User", Ok("$2b$04$h".to_string())).unwrap();
    assert_eq!(doc.password, "$2b$04$h");
    assert_eq!(doc.username, "david");
    assert_eq!(doc.email, "d@x.io");
    assert_eq!(doc.organization, "ACME.inc");
    assert_eq!(doc.role, "User");
    assert!(!doc.verified);
    let failed = parse_user_id("x").map(|_| String::new());
    assert_eq!(message(signup_document("david", "d@x.io", "ACME.inc", "User", failed)), "Failure making oid object.");
}

#[test]
fn issued_token_reads_own_record_only_as_admin() {
    for (role, allowed) in [("Admin", true), ("User", false)] {
        let stored = record("h", role);
        let claims = issue_claims(&stored, true, 10).unwrap();
        let header = AuthHeader::Present("Bearer tok".to_string());
        let caller = AuthorizedUser::from_request(&header, Some(claims)).unwrap();
        let shown = marshall_user(&stored);
        let info = Info { user_id: shown._id };
        assert_eq!(may_view_user(&Some(caller), &info), allowed);
    }
}

#[test]
fn non_ascii_hash_is_not_checked() {
    let hash = format!("$2b$04${}é{}", "a".repeat(21), "a".repeat(30));
    assert_eq!(hash.len(), 60);
    assert_eq!(check_password("password", &hash), None);
    assert!(authenticate(Ok(Some(record(&hash, "User"))), "password", 0).is_none());
}

#[test]
fn signed_up_user_reads_back() {
    let doc = plan_signup("erin", "pw123", "erin@x.io", "ACME.inc", "User", false, false).unwrap();
    let created = created_user(Ok(UserId { bytes: ID })).unwrap();
    let id = parse_user_id(&created._id).unwrap();
    let stored = UserRecord {
        id,
        username: doc.username,
        password: doc.password,
        email: doc.email,
        organization: doc.organization,
        role: doc.role,
    };
    let shown = found_user(Ok(Some(stored))).unwrap().unwrap();
    assert_eq!(shown._id, created._id);
    assert_eq!(shown.username, "erin");
    assert_eq!(shown.email, "erin@x.io");
    assert_eq!(shown.organization, "ACME.inc");
    assert_eq!(shown.role, "User");
}

#[test]
fn malformed_ascii_hashes_get_no_answer() {
    let bad_trailing_bits = format!("$2b$04${}B{}", ".".repeat(21), ".".repeat(31));
    assert_eq!(bad_trailing_bits.len(), 60);
    assert_eq!(check_password("password", &bad_trailing_bits), None);
    let cost_too_low = "$2a$03$UuTkLRZZ6QofpDOlMz32MuuxEHA43WOemOYHPz6.SjsVsyO1tDU96";
    assert_eq!(check_password("password", cost_too_low), None);
    let well_formed = format!("$2b$04${}", ".".repeat(53));
    assert_eq!(check_password("password", &well_formed), Some(false));
}
