//! The decisions of the user service. The service reads and writes a user
//! collection; the calls to the database are made by its caller, which hands
//! their outcomes to the functions here and stores or sends what they return.

use vstd::prelude::*;
use crate::models::{Claims, UpdateUser, opt_view};
use crate::object_id::{UserId, hex_lower, hex_decode, is_object_id_text, lemma_hex_round_trip};
use vstd::utf8::is_ascii_chars;
use crate::password::{bcrypt_verify_outcome, bcrypt_hash, check_password, verify_outcome, password_matches, hash_shape, well_formed_hash};

verus! {

/// Lifetime of an access token, in seconds (two days).
pub const TOKEN_LIFETIME: usize = 172800;

/// Cost factor of the password hashes the service makes.
pub const HASH_COST: u32 = 4;

/// An error of the user service, with the text sent back to the client.
#[derive(Debug, Clone)]
pub struct UserServiceError {
    message: String,
}

impl View for UserServiceError {
    type V = Seq<char>;

    closed spec fn view(&self) -> Seq<char> {
        self.message@
    }
}

impl UserServiceError {
    fn new(message: &str) -> (e: UserServiceError)
        ensures
            e@ == message@,
    {
        UserServiceError { message: String::from_str(message) }
    }

    /// The text of the error.
    pub fn message(&self) -> (m: &str)
        ensures
            m@ == self@,
    {
        self.message.as_str()
    }

    /// The text of the error, as an owned string.
    pub fn to_string(&self) -> (m: String)
        ensures
            m@ == self@,
    {
        self.message.clone()
    }
}

/// Results of the user service.
pub type UserServiceResult<T> = Result<T, UserServiceError>;

/// Whether `r` is an error with the text `m`.
pub open spec fn fails_with<T>(r: UserServiceResult<T>, m: Seq<char>) -> bool {
    r matches Err(e) && e@ == m
}

/// `fails_with` holds exactly of an error whose text is the one given.
pub proof fn lemma_fails_with_is_that_error<T>(r: UserServiceResult<T>, m: Seq<char>)
    ensures
        fails_with(r, m) <==> (r matches Err(e) && e@ == m),
        r is Ok ==> !fails_with(r, m),
{
}

/// The answer to a sign-up: the identifier of the new user.
pub struct MarshalledInsertOne {
    pub _id: String,
}

/// A database call that did not succeed.
#[derive(Debug, Clone, Copy)]
pub struct DbError;

/// A stored user, as read from the collection.
pub struct UserRecord {
    pub id: UserId,
    pub username: String,
    pub password: String,
    pub email: String,
    pub organization: String,
    pub role: String,
}

/// A user as sent to a client: everything stored but the password hash.
pub struct MarshalledUser {
    pub _id: String,
    pub username: String,
    pub email: String,
    pub organization: String,
    pub role: String,
}

/// A user to be stored by a sign-up.
pub struct NewUserDocument {
    pub username: String,
    pub password: String,
    pub email: String,
    pub organization: String,
    pub role: String,
    pub verified: bool,
}

/// One field that an update sets.
pub struct FieldUpdate {
    pub key: String,
    pub value: String,
}

/// The answer to an update or a deletion.
pub struct Acknowledgement {
    pub success: bool,
}

/// Hashes a password for storage, with cost 4.
pub fn hash_password(password: &str) -> (r: UserServiceResult<String>)
    ensures
        r matches Ok(h) ==> (password_matches(password@, h@) && hash_shape(h@, 4)),
        r is Err ==> fails_with(r, "Failure hashing password"@),
        password@.contains('\0') ==> r is Err,
        r matches Ok(h) ==> bcrypt_verify_outcome(password@, h@) == Some(true),
        r matches Err(e) ==> e@ == "Failure hashing password"@,
{
    match bcrypt_hash(password, HASH_COST) {
        Ok(h) => Ok(h),
        Err(_) => Err(UserServiceError::new("Failure hashing password")),
    }
}

/// Whether `doc` stores a new user with the given fields and a hash of the
/// given password, not yet verified.
pub open spec fn new_user_of(
    doc: NewUserDocument,
    username: Seq<char>,
    password: Seq<char>,
    email: Seq<char>,
    organization: Seq<char>,
    role: Seq<char>,
) -> bool {
    &&& doc.username@ == username
    &&& doc.email@ == email
    &&& doc.organization@ == organization
    &&& doc.role@ == role
    &&& password_matches(password, doc.password@)
    &&& hash_shape(doc.password@, 4)
    &&& !doc.verified
}

/// The document a sign-up stores, given the outcome of hashing the
/// password: the fields as given, the hash, and not yet verified. A failed
/// hash is passed on.
pub fn signup_document(
    username: &str,
    email: &str,
    organization: &str,
    role: &str,
    hashed: UserServiceResult<String>,
) -> (r: UserServiceResult<NewUserDocument>)
    ensures
        match hashed {
            Ok(h) => r matches Ok(doc) && doc.username@ == username@ && doc.password@ == h@
                && doc.email@ == email@ && doc.organization@ == organization@ && doc.role@
                == role@ && !doc.verified,
            Err(e) => r matches Err(f) && f@ == e@,
        },
{
    match hashed {
        Ok(h) => Ok(NewUserDocument {
            username: String::from_str(username),
            password: h,
            email: String::from_str(email),
            organization: String::from_str(organization),
            role: String::from_str(role),
            verified: false,
        }),
        Err(e) => Err(e),
    }
}

/// Decides a sign-up, given whether a user with the same e-mail and one with
/// the same user name are stored already. Either is refused with the same
/// text; otherwise the password is hashed and the document to store is
/// returned.
pub fn plan_signup(
    username: &str,
    password: &str,
    email: &str,
    organization: &str,
    role: &str,
    username_taken: bool,
    email_taken: bool,
) -> (r: UserServiceResult<NewUserDocument>)
    ensures
        (username_taken || email_taken) ==> fails_with(r, "Username already in use."@),
        !(username_taken || email_taken) ==> match r {
            Ok(doc) => new_user_of(doc, username@, password@, email@, organization@, role@),
            Err(e) => e@ == "Failure hashing password"@,
        },
        !(username_taken || email_taken) && password@.contains('\0') ==> r is Err,
        r is Ok ==> (!username_taken && !email_taken),
        r matches Ok(doc) ==> (doc.username@ == username@ && doc.email@ == email@
            && doc.organization@ == organization@ && doc.role@ == role@ && !doc.verified
            && bcrypt_verify_outcome(password@, doc.password@) == Some(true)),
        r matches Err(e) ==> (e@ == "Username already in use."@ <==> (username_taken || email_taken)),
{
    if email_taken {
        return Err(UserServiceError::new("Username already in use."));
    }
    if username_taken {
        return Err(UserServiceError::new("Username already in use."));
    }
    proof {
        reveal_strlit("Failure hashing password");
        reveal_strlit("Username already in use.");
        assert("Failure hashing password"@[0] != "Username already in use."@[0]);
    }
    signup_document(username, email, organization, role, hash_password(password))
}

/// The answer to a sign-up, given the outcome of storing the new user.
pub fn created_user(inserted: Result<UserId, DbError>) -> (r: UserServiceResult<MarshalledInsertOne>)
    ensures
        match inserted {
            Ok(id) => r matches Ok(m) && m._id@ == hex_lower(id.bytes@),
            Err(_) => fails_with(r, "Could not create user."@),
        },
{
    match inserted {
        Ok(id) => Ok(MarshalledInsertOne { _id: id.to_hex() }),
        Err(_) => Err(UserServiceError::new("Could not create user.")),
    }
}

/// Reads the identifier in a request path.
pub fn parse_user_id(user_id: &str) -> (r: UserServiceResult<UserId>)
    ensures
        r is Ok <==> is_object_id_text(user_id@),
        r matches Ok(id) ==> (id.bytes@ == hex_decode(user_id@)),
        r is Err ==> fails_with(r, "Failure making oid object."@),
{
    match UserId::parse(user_id) {
        Some(id) => Ok(id),
        None => Err(UserServiceError::new("Failure making oid object.")),
    }
}

/// Whether `m` shows the stored user `u`: its identifier in hexadecimal and
/// its fields, without the password hash.
pub open spec fn marshalled(u: UserRecord, m: MarshalledUser) -> bool {
    &&& m._id@ == hex_lower(u.id.bytes@)
    &&& m.username@ == u.username@
    &&& m.email@ == u.email@
    &&& m.organization@ == u.organization@
    &&& m.role@ == u.role@
}

/// A stored user as sent to a client.
pub fn marshall_user(record: &UserRecord) -> (m: MarshalledUser)
    ensures
        marshalled(*record, m),
        m._id@ == hex_lower(record.id.bytes@),
        m.username@ == record.username@,
        m.email@ == record.email@,
        m.organization@ == record.organization@,
        m.role@ == record.role@,
{
    MarshalledUser {
        _id: record.id.to_hex(),
        username: record.username.clone(),
        email: record.email.clone(),
        organization: record.organization.clone(),
        role: record.role.clone(),
    }
}

/// The answer to a request for one user, given the outcome of looking it
/// up. A lookup that finds nothing is not handled here: the service stops
/// on it.
pub fn found_user(found: Result<Option<UserRecord>, DbError>) -> (r: UserServiceResult<Option<MarshalledUser>>)
    requires
        found matches Ok(o) ==> o is Some,
    ensures
        match found {
            Ok(Some(u)) => r matches Ok(Some(m)) && marshalled(u, m),
            _ => fails_with(r, "Failure finding user."@),
        },
        r matches Ok(o) ==> (found matches Ok(Some(u)) && o matches Some(m) && m._id@ == hex_lower(
            u.id.bytes@,
        ) && m.username@ == u.username@ && m.email@ == u.email@ && m.organization@
            == u.organization@ && m.role@ == u.role@),
        r matches Err(e) ==> (found is Err && e@ == "Failure finding user."@),
{
    match found {
        Ok(Some(u)) => Ok(Some(marshall_user(&u))),
        _ => Err(UserServiceError::new("Failure finding user.")),
    }
}

/// The fields an update sets, in order: the e-mail, then the user name,
/// each only when given.
pub open spec fn update_entries(email: Option<Seq<char>>, username: Option<Seq<char>>) -> Seq<
    (Seq<char>, Seq<char>),
> {
    (match email {
        Some(e) => seq![("email"@, e)],
        None => Seq::empty(),
    }) + (match username {
        Some(u) => seq![("username"@, u)],
        None => Seq::empty(),
    })
}

/// An update sets every field it is given, whatever the other field is, and
/// nothing else: one entry per given field, the e-mail first.
pub proof fn lemma_update_sets_each_given_field(email: Option<Seq<char>>, username: Option<Seq<char>>)
    ensures
        update_entries(email, username).len() == (if email is Some { 1int } else { 0 }) + (
        if username is Some {
            1int
        } else {
            0
        }),
        email matches Some(e) ==> update_entries(email, username)[0] == ("email"@, e),
        username matches Some(u) ==> update_entries(email, username)[update_entries(
            email,
            username,
        ).len() - 1] == ("username"@, u),
{
}

/// Whether `fields` are the entries `entries`, in order.
pub open spec fn fields_are(fields: Seq<FieldUpdate>, entries: Seq<(Seq<char>, Seq<char>)>) -> bool {
    &&& fields.len() == entries.len()
    &&& forall|i: int|
        0 <= i < fields.len() ==> (#[trigger] fields[i]).key@ == entries[i].0 && fields[i].value@
            == entries[i].1
}

/// The fields that an update request sets.
pub fn update_fields(updates: UpdateUser) -> (r: Vec<FieldUpdate>)
    ensures
        fields_are(r@, update_entries(opt_view(updates.email), opt_view(updates.username))),
        r@.len() == (if updates.email is Some { 1int } else { 0 }) + (if updates.username is Some {
            1int
        } else {
            0
        }),
        updates.email matches Some(e) ==> (r@[0].key@ == "email"@ && r@[0].value@ == e@),
        updates.username matches Some(u) ==> (r@[r@.len() - 1].key@ == "username"@ && r@[r@.len()
            - 1].value@ == u@),
{
    let ghost entries = update_entries(opt_view(updates.email), opt_view(updates.username));
    let mut fields: Vec<FieldUpdate> = Vec::new();
    let ghost e_part: Seq<(Seq<char>, Seq<char>)> = match opt_view(updates.email) {
        Some(e) => seq![("email"@, e)],
        None => Seq::empty(),
    };
    match updates.email {
        Some(e) => {
            fields.push(FieldUpdate { key: String::from_str("email"), value: e });
        },
        None => {},
    }
    assert(fields_are(fields@, e_part));
    match updates.username {
        Some(u) => {
            fields.push(FieldUpdate { key: String::from_str("username"), value: u });
        },
        None => {},
    }
    assert(fields_are(fields@, entries));
    fields
}

/// The answer to an update, given the outcome of applying it. An update of
/// an identifier that matches no user is still acknowledged.
pub fn updated(outcome: Result<(), DbError>) -> (r: UserServiceResult<Option<Acknowledgement>>)
    ensures
        match outcome {
            Ok(()) => r matches Ok(Some(a)) && a.success,
            Err(_) => fails_with(r, "User not found."@),
        },
{
    match outcome {
        Ok(()) => Ok(Some(Acknowledgement { success: true })),
        Err(_) => Err(UserServiceError::new("User not found.")),
    }
}

/// The answer to a deletion, given the outcome of applying it.
pub fn deleted(outcome: Result<(), DbError>) -> (r: UserServiceResult<Option<Acknowledgement>>)
    ensures
        match outcome {
            Ok(()) => r matches Ok(Some(a)) && a.success,
            Err(_) => fails_with(r, "Failure finding user."@),
        },
{
    match outcome {
        Ok(()) => Ok(Some(Acknowledgement { success: true })),
        Err(_) => Err(UserServiceError::new("Failure finding user.")),
    }
}

/// Whether `c` are the claims issued to `u` at time `now`: the subject is
/// its identifier in hexadecimal, role and organization are its own, and
/// the token expires two days later.
pub open spec fn claims_issued(u: UserRecord, now: int, c: Claims) -> bool {
    &&& c.sub@ == hex_lower(u.id.bytes@)
    &&& c.role@ == u.role@
    &&& c.organization@ == u.organization@
    &&& c.exp == now + TOKEN_LIFETIME
}

/// Issues the claims of a user whose password was checked, at time `now`
/// (seconds since the epoch); a wrong password is refused.
pub fn issue_claims(user: &UserRecord, password_ok: bool, now: usize) -> (r: UserServiceResult<Claims>)
    requires
        password_ok ==> now + TOKEN_LIFETIME <= usize::MAX,
    ensures
        password_ok ==> (r matches Ok(c) && claims_issued(*user, now as int, c)),
        !password_ok ==> fails_with(r, "Authentication failed."@),
        r is Ok <==> password_ok,
        r matches Ok(c) ==> (c.sub@ == hex_lower(user.id.bytes@) && c.role@ == user.role@
            && c.organization@ == user.organization@ && c.exp == now + TOKEN_LIFETIME),
        r matches Err(e) ==> e@ == "Authentication failed."@,
{
    if password_ok {
        Ok(Claims {
            sub: user.id.to_hex(),
            role: user.role.clone(),
            organization: user.organization.clone(),
            exp: now + TOKEN_LIFETIME,
        })
    } else {
        Err(UserServiceError::new("Authentication failed."))
    }
}

/// Whether a login with `password` at time `now` is granted to the stored
/// user `u`: the stored hash checks and accepts the password, and the expiry
/// time fits.
pub open spec fn login_granted(u: UserRecord, password: Seq<char>, now: int) -> bool {
    verify_outcome(password, u.password@) == Some(true) && now + TOKEN_LIFETIME <= usize::MAX
}

/// Decides a login, given the outcome of looking up the user by name, the
/// password given, and the time. `None` when the stored hash cannot be
/// checked (it is not ASCII, or bcrypt refuses it or the password) or the
/// expiry time does not fit, where the service stops; a well-formed stored
/// hash and a password without NUL always get an answer when the expiry
/// fits.
pub fn authenticate(found: Result<Option<UserRecord>, DbError>, password: &str, now: usize) -> (r:
    Option<UserServiceResult<Claims>>)
    ensures
        match found {
            Err(_) => r matches Some(res) && fails_with(res, "Could not query db."@),
            Ok(None) => r matches Some(res) && fails_with(res, "User not found."@),
            Ok(Some(u)) => match verify_outcome(password@, u.password@) {
                None => r is None,
                Some(false) => r matches Some(res) && fails_with(res, "Authentication failed."@),
                Some(true) => if now + TOKEN_LIFETIME <= usize::MAX {
                    r matches Some(Ok(c)) && claims_issued(u, now as int, c)
                } else {
                    r is None
                },
            },
        },
        found matches Ok(Some(u)) ==> (r matches Some(Ok(_)) <==> login_granted(u, password@, now as int)),
        found matches Ok(Some(u)) ==> (well_formed_hash(u.password@) && !password@.contains('\0')
            && now + TOKEN_LIFETIME <= usize::MAX ==> r is Some),
        r matches Some(Ok(c)) ==> (found matches Ok(Some(u)) && bcrypt_verify_outcome(
            password@,
            u.password@,
        ) == Some(true) && c.sub@ == hex_lower(u.id.bytes@) && c.role@ == u.role@
            && c.organization@ == u.organization@ && c.exp == now + TOKEN_LIFETIME),
        found matches Ok(Some(u)) ==> (is_ascii_chars(u.password@) && bcrypt_verify_outcome(
            password@,
            u.password@,
        ) == Some(false) ==> (r matches Some(Err(e)) && e@ == "Authentication failed."@)),
        found matches Ok(Some(u)) ==> (is_ascii_chars(u.password@) && bcrypt_verify_outcome(
            password@,
            u.password@,
        ) == Some(true) && now + TOKEN_LIFETIME <= usize::MAX ==> r matches Some(Ok(_))),
{
    match found {
        Err(_) => Some(Err(UserServiceError::new("Could not query db."))),
        Ok(None) => Some(Err(UserServiceError::new("User not found."))),
        Ok(Some(user)) => match check_password(password, user.password.as_str()) {
            None => None,
            Some(ok) => {
                if ok && now > usize::MAX - TOKEN_LIFETIME {
                    None
                } else {
                    Some(issue_claims(&user, ok, now))
                }
            },
        },
    }
}

/// A user stored from a sign-up document, under an identifier.
pub open spec fn stored_from(u: UserRecord, doc: NewUserDocument) -> bool {
    &&& u.username@ == doc.username@
    &&& u.password@ == doc.password@
    &&& u.email@ == doc.email@
    &&& u.organization@ == doc.organization@
    &&& u.role@ == doc.role@
}

/// A user who signed up can log in with the password given at sign-up, at
/// any time whose token expiry fits.
pub proof fn lemma_signed_up_user_logs_in(
    doc: NewUserDocument,
    u: UserRecord,
    username: Seq<char>,
    password: Seq<char>,
    email: Seq<char>,
    organization: Seq<char>,
    role: Seq<char>,
    now: int,
)
    requires
        new_user_of(doc, username, password, email, organization, role),
        stored_from(u, doc),
        0 <= now && now + TOKEN_LIFETIME <= usize::MAX,
    ensures
        login_granted(u, password, now),
{
}

/// Whether a user with this name is stored.
pub open spec fn name_taken(users: Seq<UserRecord>, username: Seq<char>) -> bool {
    exists|i: int| 0 <= i < users.len() && (#[trigger] users[i]).username@ == username
}

/// Whether a user with this e-mail is stored.
pub open spec fn email_taken(users: Seq<UserRecord>, email: Seq<char>) -> bool {
    exists|i: int| 0 <= i < users.len() && (#[trigger] users[i]).email@ == email
}

/// No two stored users share a name or an e-mail.
pub open spec fn accounts_unique(users: Seq<UserRecord>) -> bool {
    forall|i: int, j: int|
        0 <= i < users.len() && 0 <= j < users.len() && i != j ==> (#[trigger] users[i]).username@
            != (#[trigger] users[j]).username@ && users[i].email@ != users[j].email@
}

/// Sign-ups keep names and e-mails unique: when the stored users are unique,
/// and a sign-up was allowed because neither its name nor its e-mail is
/// stored, storing its document keeps them unique.
pub proof fn lemma_signup_keeps_accounts_unique(
    users: Seq<UserRecord>,
    doc: NewUserDocument,
    u: UserRecord,
    username: Seq<char>,
    password: Seq<char>,
    email: Seq<char>,
    organization: Seq<char>,
    role: Seq<char>,
)
    requires
        accounts_unique(users),
        !name_taken(users, username),
        !email_taken(users, email),
        new_user_of(doc, username, password, email, organization, role),
        stored_from(u, doc),
    ensures
        accounts_unique(users.push(u)),
{
    let all = users.push(u);
    assert forall|i: int, j: int|
        0 <= i < all.len() && 0 <= j < all.len() && i != j implies (#[trigger] all[i]).username@
        != (#[trigger] all[j]).username@ && all[i].email@ != all[j].email@ by {
        if i == users.len() {
            assert(all[j] == users[j]);
        } else if j == users.len() {
            assert(all[i] == users[i]);
        } else {
            assert(all[i] == users[i] && all[j] == users[j]);
        }
    }
}

/// A user who signed up is read back as signed up: the identifier sent back
/// by the sign-up is the stored one, reads back as it, and the user shown
/// for it has the name, e-mail, organization and role given at sign-up.
pub proof fn lemma_signed_up_user_reads_back(
    doc: NewUserDocument,
    u: UserRecord,
    m: MarshalledUser,
    username: Seq<char>,
    password: Seq<char>,
    email: Seq<char>,
    organization: Seq<char>,
    role: Seq<char>,
)
    requires
        new_user_of(doc, username, password, email, organization, role),
        stored_from(u, doc),
        marshalled(u, m),
    ensures
        m._id@ == hex_lower(u.id.bytes@),
        is_object_id_text(m._id@),
        hex_decode(m._id@) == u.id.bytes@,
        m.username@ == username,
        m.email@ == email,
        m.organization@ == organization,
        m.role@ == role,
{
    lemma_hex_round_trip(u.id.bytes@);
}

/// The claims issued at login carry nothing of the password: two stored
/// users that differ at most in their password hashes get claims with the
/// same subject, role, organization and expiry.
pub proof fn lemma_claims_hold_no_password(u1: UserRecord, u2: UserRecord, now: int, c1: Claims, c2: Claims)
    requires
        u1.id == u2.id,
        u1.role@ == u2.role@,
        u1.organization@ == u2.organization@,
        claims_issued(u1, now, c1),
        claims_issued(u2, now, c2),
    ensures
        c1.sub@ == c2.sub@,
        c1.role@ == c2.role@,
        c1.organization@ == c2.organization@,
        c1.exp == c2.exp,
{
}

} // verus!
