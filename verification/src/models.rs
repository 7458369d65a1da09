//! The request and token payloads, their field rules, and the reading of the
//! `Authorization` header.

use vstd::prelude::*;
use crate::validation::{long_enough, valid_email, valid_role, email_accepted, role_accepted};

verus! {

/// The claims carried by an access token.
pub struct Claims {
    pub sub: String,
    pub organization: String,
    pub role: String,
    pub exp: usize,
}

/// A sign-up request.
pub struct User {
    pub username: String,
    pub password: String,
    pub email: String,
    pub organization: String,
    pub role: String,
}

/// A request to change some fields of a user.
pub struct UpdateUser {
    pub username: Option<String>,
    pub email: Option<String>,
}

/// The caller of a request, as its access token describes it.
pub struct AuthorizedUser {
    pub token: String,
    pub sub: String,
    pub role: String,
    pub organization: String,
}

/// A login request.
pub struct AuthenticateUser {
    pub username: String,
    pub password: String,
}

/// The path parameter of a request for one user.
pub struct Info {
    pub user_id: String,
}

/// The identifier of a user, as a response body.
pub struct UserResponseData {
    _id: String,
}

/// A field of a request that breaks its rule.
#[derive(Clone, Copy, Debug, PartialEq, Eq, Structural)]
pub enum ValidationIssue {
    /// The user name has fewer than three characters.
    UsernameTooShort,
    /// The e-mail address is not one.
    InvalidEmail,
    /// The role does not match the role pattern.
    InvalidRole,
}

/// The name of the request field that an issue is about.
pub open spec fn issue_field(issue: ValidationIssue) -> Seq<char> {
    match issue {
        ValidationIssue::UsernameTooShort => "username"@,
        ValidationIssue::InvalidEmail => "email"@,
        ValidationIssue::InvalidRole => "role"@,
    }
}

impl ValidationIssue {
    /// The name of the request field that the issue is about.
    pub fn field_name(&self) -> (name: &'static str)
        ensures
            name@ == issue_field(*self),
            *self is UsernameTooShort ==> name@ == "username"@,
            *self is InvalidEmail ==> name@ == "email"@,
            *self is InvalidRole ==> name@ == "role"@,
    {
        match self {
            ValidationIssue::UsernameTooShort => "username",
            ValidationIssue::InvalidEmail => "email",
            ValidationIssue::InvalidRole => "role",
        }
    }
}

/// The issue for a field, if its rule does not hold.
pub open spec fn issue_if(ok: bool, issue: ValidationIssue) -> Seq<ValidationIssue> {
    if ok {
        Seq::empty()
    } else {
        seq![issue]
    }
}

/// The issues of a sign-up request, in field order.
pub open spec fn user_issues(username: Seq<char>, email: Seq<char>, role: Seq<char>) -> Seq<
    ValidationIssue,
> {
    issue_if(username.len() >= 3, ValidationIssue::UsernameTooShort) + issue_if(
        email_accepted(email),
        ValidationIssue::InvalidEmail,
    ) + issue_if(role_accepted(role), ValidationIssue::InvalidRole)
}

/// The issues of an update request, in field order: a field that is absent
/// breaks no rule.
pub open spec fn update_issues(username: Option<Seq<char>>, email: Option<Seq<char>>) -> Seq<
    ValidationIssue,
> {
    issue_if(
        match username {
            Some(u) => u.len() >= 3,
            None => true,
        },
        ValidationIssue::UsernameTooShort,
    ) + issue_if(
        match email {
            Some(e) => email_accepted(e),
            None => true,
        },
        ValidationIssue::InvalidEmail,
    )
}

/// The view of an optional text.
pub open spec fn opt_view(s: Option<String>) -> Option<Seq<char>> {
    match s {
        Some(t) => Some(t@),
        None => None,
    }
}

/// `Ok` when there is no issue, else every issue in order.
pub open spec fn outcome_of(issues: Seq<ValidationIssue>, r: Result<(), Vec<ValidationIssue>>) -> bool {
    match r {
        Ok(()) => issues.len() == 0,
        Err(found) => issues.len() > 0 && found@ == issues,
    }
}

proof fn lemma_issue_if_contains(ok: bool, issue: ValidationIssue, x: ValidationIssue)
    ensures
        issue_if(ok, issue).contains(x) <==> (!ok && x == issue),
        issue_if(ok, issue).len() == (if ok { 0int } else { 1 }),
{
    if !ok {
        assert(issue_if(ok, issue)[0] == issue);
    }
}

proof fn lemma_concat_contains(a: Seq<ValidationIssue>, b: Seq<ValidationIssue>, x: ValidationIssue)
    ensures
        (a + b).contains(x) <==> (a.contains(x) || b.contains(x)),
{
    if a.contains(x) {
        let i = choose|i: int| 0 <= i < a.len() && a[i] == x;
        assert((a + b)[i] == x);
    }
    if b.contains(x) {
        let i = choose|i: int| 0 <= i < b.len() && b[i] == x;
        assert((a + b)[a.len() + i] == x);
    }
    if (a + b).contains(x) {
        let i = choose|i: int| 0 <= i < (a + b).len() && (a + b)[i] == x;
        if i < a.len() {
            assert(a[i] == x);
        } else {
            assert(b[i - a.len()] == x);
        }
    }
}

/// An update request is refused for a short user name exactly when a user
/// name is given and has fewer than three characters, and for an e-mail
/// exactly when one is given and is not an address; each rule is checked
/// whatever the other field is, and no other issue is ever reported.
pub proof fn lemma_update_issue_reasons(username: Option<Seq<char>>, email: Option<Seq<char>>)
    ensures
        update_issues(username, email).contains(ValidationIssue::UsernameTooShort) <==> (
        username matches Some(n) && n.len() < 3),
        update_issues(username, email).contains(ValidationIssue::InvalidEmail) <==> (
        email matches Some(m) && !email_accepted(m)),
        !update_issues(username, email).contains(ValidationIssue::InvalidRole),
        update_issues(username, email).len() == 0 <==> (!(username matches Some(n) && n.len() < 3)
            && !(email matches Some(m) && !email_accepted(m))),
        update_issues(username, email).no_duplicates(),
{
    let a = issue_if(
        match username {
            Some(u) => u.len() >= 3,
            None => true,
        },
        ValidationIssue::UsernameTooShort,
    );
    let b = issue_if(
        match email {
            Some(e) => email_accepted(e),
            None => true,
        },
        ValidationIssue::InvalidEmail,
    );
    assert(update_issues(username, email) == a + b);
    lemma_concat_contains(a, b, ValidationIssue::UsernameTooShort);
    lemma_concat_contains(a, b, ValidationIssue::InvalidEmail);
    lemma_concat_contains(a, b, ValidationIssue::InvalidRole);
    lemma_issue_if_contains(
        match username {
            Some(u) => u.len() >= 3,
            None => true,
        },
        ValidationIssue::UsernameTooShort,
        ValidationIssue::UsernameTooShort,
    );
    lemma_issue_if_contains(
        match username {
            Some(u) => u.len() >= 3,
            None => true,
        },
        ValidationIssue::UsernameTooShort,
        ValidationIssue::InvalidEmail,
    );
    lemma_issue_if_contains(
        match username {
            Some(u) => u.len() >= 3,
            None => true,
        },
        ValidationIssue::UsernameTooShort,
        ValidationIssue::InvalidRole,
    );
    lemma_issue_if_contains(
        match email {
            Some(e) => email_accepted(e),
            None => true,
        },
        ValidationIssue::InvalidEmail,
        ValidationIssue::UsernameTooShort,
    );
    lemma_issue_if_contains(
        match email {
            Some(e) => email_accepted(e),
            None => true,
        },
        ValidationIssue::InvalidEmail,
        ValidationIssue::InvalidEmail,
    );
    lemma_issue_if_contains(
        match email {
            Some(e) => email_accepted(e),
            None => true,
        },
        ValidationIssue::InvalidEmail,
        ValidationIssue::InvalidRole,
    );
    assert((a + b).no_duplicates()) by {
        assert forall|i: int, j: int| 0 <= i < (a + b).len() && 0 <= j < (a + b).len() && i != j
            implies (a + b)[i] != (a + b)[j] by {
            if a.len() == 1 && b.len() == 1 {
                assert((a + b)[0] == ValidationIssue::UsernameTooShort);
                assert((a + b)[1] == ValidationIssue::InvalidEmail);
            }
        }
    }
}

proof fn lemma_user_issue_contains(username: Seq<char>, email: Seq<char>, role: Seq<char>, x: ValidationIssue)
    ensures
        user_issues(username, email, role).contains(x) <==> ((username.len() < 3 && x
            == ValidationIssue::UsernameTooShort) || (!email_accepted(email) && x
            == ValidationIssue::InvalidEmail) || (!role_accepted(role) && x
            == ValidationIssue::InvalidRole)),
{
    let a = issue_if(username.len() >= 3, ValidationIssue::UsernameTooShort);
    let b = issue_if(email_accepted(email), ValidationIssue::InvalidEmail);
    let c = issue_if(role_accepted(role), ValidationIssue::InvalidRole);
    lemma_concat_contains(a, b, x);
    lemma_concat_contains(a + b, c, x);
    lemma_issue_if_contains(username.len() >= 3, ValidationIssue::UsernameTooShort, x);
    lemma_issue_if_contains(email_accepted(email), ValidationIssue::InvalidEmail, x);
    lemma_issue_if_contains(role_accepted(role), ValidationIssue::InvalidRole, x);
}

/// A sign-up request is refused for each broken rule, each checked on its
/// own field whatever the others are: a user name of fewer than three
/// characters, an e-mail that is not an address, a role that does not
/// contain `User` or `Admin`. No issue is reported twice, and there is none
/// exactly when every rule holds.
pub proof fn lemma_user_issue_reasons(username: Seq<char>, email: Seq<char>, role: Seq<char>)
    ensures
        user_issues(username, email, role).contains(ValidationIssue::UsernameTooShort) <==> username.len() < 3,
        user_issues(username, email, role).contains(ValidationIssue::InvalidEmail) <==> !email_accepted(email),
        user_issues(username, email, role).contains(ValidationIssue::InvalidRole) <==> !role_accepted(role),
        user_issues(username, email, role).len() == 0 <==> (username.len() >= 3 && email_accepted(email)
            && role_accepted(role)),
        user_issues(username, email, role).no_duplicates(),
{
    let a = issue_if(username.len() >= 3, ValidationIssue::UsernameTooShort);
    let b = issue_if(email_accepted(email), ValidationIssue::InvalidEmail);
    let c = issue_if(role_accepted(role), ValidationIssue::InvalidRole);
    let xs = seq![ValidationIssue::UsernameTooShort, ValidationIssue::InvalidEmail, ValidationIssue::InvalidRole];
    assert(xs[0] == ValidationIssue::UsernameTooShort);
    assert(xs[1] == ValidationIssue::InvalidEmail);
    assert(xs[2] == ValidationIssue::InvalidRole);
    lemma_user_issue_contains(username, email, role, ValidationIssue::UsernameTooShort);
    lemma_user_issue_contains(username, email, role, ValidationIssue::InvalidEmail);
    lemma_user_issue_contains(username, email, role, ValidationIssue::InvalidRole);
    assert(user_issues(username, email, role) == a + b + c);
    lemma_issue_if_contains(username.len() >= 3, ValidationIssue::UsernameTooShort, ValidationIssue::UsernameTooShort);
    lemma_issue_if_contains(email_accepted(email), ValidationIssue::InvalidEmail, ValidationIssue::InvalidEmail);
    lemma_issue_if_contains(role_accepted(role), ValidationIssue::InvalidRole, ValidationIssue::InvalidRole);
    let s = a + b + c;
    assert(s.no_duplicates()) by {
        assert forall|i: int, j: int| 0 <= i < s.len() && 0 <= j < s.len() && i != j implies s[i]
            != s[j] by {
            let ai = if i < a.len() { 0int } else if i < a.len() + b.len() { 1 } else { 2 };
            let aj = if j < a.len() { 0int } else if j < a.len() + b.len() { 1 } else { 2 };
            assert(s[i] == xs[ai]);
            assert(s[j] == xs[aj]);
        }
    }
}

fn push_issue(issues: &mut Vec<ValidationIssue>, ok: bool, issue: ValidationIssue)
    ensures
        final(issues)@ == old(issues)@ + issue_if(ok, issue),
{
    if !ok {
        issues.push(issue);
    } else {
        assert(old(issues)@ + issue_if(ok, issue) =~= old(issues)@);
    }
}

fn finish(issues: Vec<ValidationIssue>) -> (r: Result<(), Vec<ValidationIssue>>)
    ensures
        outcome_of(issues@, r),
{
    if issues.len() == 0 {
        Ok(())
    } else {
        Err(issues)
    }
}

impl User {
    /// Checks the fields of a sign-up request: the user name has at least
    /// three characters, the e-mail is an address, and the role matches the
    /// role pattern.
    pub fn validate(&self) -> (r: Result<(), Vec<ValidationIssue>>)
        ensures
            outcome_of(user_issues(self.username@, self.email@, self.role@), r),
            (r matches Err(v) && v@.contains(ValidationIssue::UsernameTooShort)) <==> self.username@.len() < 3,
            (r matches Err(v) && v@.contains(ValidationIssue::InvalidEmail)) <==> !email_accepted(self.email@),
            (r matches Err(v) && v@.contains(ValidationIssue::InvalidRole)) <==> !role_accepted(self.role@),
            r is Ok <==> (self.username@.len() >= 3 && email_accepted(self.email@) && role_accepted(
                self.role@,
            )),
            r matches Err(v) ==> v@.no_duplicates(),
    {
        proof {
            lemma_user_issue_reasons(self.username@, self.email@, self.role@);
        }
        let mut issues: Vec<ValidationIssue> = Vec::new();
        push_issue(&mut issues, long_enough(self.username.as_str()), ValidationIssue::UsernameTooShort);
        push_issue(&mut issues, valid_email(self.email.as_str()), ValidationIssue::InvalidEmail);
        push_issue(&mut issues, valid_role(self.role.as_str()), ValidationIssue::InvalidRole);
        assert(issues@ =~= user_issues(self.username@, self.email@, self.role@));
        finish(issues)
    }
}

impl UpdateUser {
    /// Checks the fields present in an update request: a user name has at
    /// least three characters and an e-mail is an address.
    pub fn validate(&self) -> (r: Result<(), Vec<ValidationIssue>>)
        ensures
            outcome_of(update_issues(opt_view(self.username), opt_view(self.email)), r),
            (r matches Err(v) && v@.contains(ValidationIssue::UsernameTooShort)) <==> (
            self.username matches Some(n) && n@.len() < 3),
            (r matches Err(v) && v@.contains(ValidationIssue::InvalidEmail)) <==> (
            self.email matches Some(m) && !email_accepted(m@)),
            r matches Err(v) ==> (!v@.contains(ValidationIssue::InvalidRole) && v@.no_duplicates()),
            r is Ok <==> (!(self.username matches Some(n) && n@.len() < 3) && !(
            self.email matches Some(m) && !email_accepted(m@))),
    {
        proof {
            lemma_update_issue_reasons(opt_view(self.username), opt_view(self.email));
        }
        let mut issues: Vec<ValidationIssue> = Vec::new();
        let username_ok = match &self.username {
            Some(u) => long_enough(u.as_str()),
            None => true,
        };
        push_issue(&mut issues, username_ok, ValidationIssue::UsernameTooShort);
        let email_ok = match &self.email {
            Some(e) => valid_email(e.as_str()),
            None => true,
        };
        push_issue(&mut issues, email_ok, ValidationIssue::InvalidEmail);
        assert(issues@ =~= update_issues(opt_view(self.username), opt_view(self.email)));
        finish(issues)
    }
}

impl AuthenticateUser {
    /// Checks a login request: the user name has at least three characters.
    pub fn validate(&self) -> (r: Result<(), Vec<ValidationIssue>>)
        ensures
            outcome_of(issue_if(self.username@.len() >= 3, ValidationIssue::UsernameTooShort), r),
            r is Ok <==> self.username@.len() >= 3,
            r matches Err(v) ==> v@ == seq![ValidationIssue::UsernameTooShort],
    {
        proof {
            lemma_issue_if_contains(self.username@.len() >= 3, ValidationIssue::UsernameTooShort, ValidationIssue::UsernameTooShort);
        }
        let mut issues: Vec<ValidationIssue> = Vec::new();
        push_issue(&mut issues, long_enough(self.username.as_str()), ValidationIssue::UsernameTooShort);
        finish(issues)
    }
}

/// The `Authorization` header of a request, as the server hands it over.
pub enum AuthHeader {
    /// The request has no such header.
    Missing,
    /// The header is not text; the reason is given.
    Unreadable(String),
    /// The header's text.
    Present(String),
}

/// Why a request's caller could not be established.
#[derive(Debug)]
pub enum AuthRejection {
    /// No header, or a token that does not decode.
    NotAuthorized,
    /// The header is not two words separated by one space.
    BadHeaders,
    /// The header is not text.
    Unreadable(String),
}

/// The text of a rejection.
pub open spec fn rejection_text(r: AuthRejection) -> Seq<char> {
    match r {
        AuthRejection::NotAuthorized => "Not Authorized"@,
        AuthRejection::BadHeaders => "Bad Headers"@,
        AuthRejection::Unreadable(m) => m@,
    }
}

impl AuthRejection {
    /// The text of the rejection, sent back with a Bad Request answer.
    pub fn message(&self) -> (m: String)
        ensures
            m@ == rejection_text(*self),
            *self is NotAuthorized ==> m@ == "Not Authorized"@,
            *self is BadHeaders ==> m@ == "Bad Headers"@,
            self matches AuthRejection::Unreadable(reason) ==> m@ == reason@,
    {
        match self {
            AuthRejection::NotAuthorized => String::from_str("Not Authorized"),
            AuthRejection::BadHeaders => String::from_str("Bad Headers"),
            AuthRejection::Unreadable(m) => m.clone(),
        }
    }
}

/// Whether position `i` holds the only space of `s`.
pub open spec fn only_space_at(s: Seq<char>, i: int) -> bool {
    &&& 0 <= i < s.len()
    &&& s[i] == ' '
    &&& forall|j: int| 0 <= j < s.len() && j != i ==> s[j] != ' '
}

/// The second word of a header value that splits on spaces into exactly two
/// words; `None` for any other number of words.
pub open spec fn bearer_token_of(s: Seq<char>) -> Option<Seq<char>> {
    if exists|i: int| only_space_at(s, i) {
        let i = choose|i: int| only_space_at(s, i);
        Some(s.subrange(i + 1, s.len() as int))
    } else {
        None
    }
}

/// The token of a header value of the form `<scheme> <token>`: the value
/// must split on `' '` into exactly two pieces, and the second is returned.
pub fn bearer_token(value: &str) -> (r: Option<String>)
    ensures
        opt_view(r) == bearer_token_of(value@),
        r matches Some(t) ==> exists|i: int|
            0 <= i < value@.len() && #[trigger] value@[i] == ' ' && t@ == value@.subrange(
                i + 1,
                value@.len() as int,
            ) && forall|j: int| 0 <= j < value@.len() && j != i ==> value@[j] != ' ',
        (exists|i: int|
            0 <= i < value@.len() && #[trigger] value@[i] == ' ' && forall|j: int|
                0 <= j < value@.len() && j != i ==> value@[j] != ' ') ==> r is Some,
{
    let n = value.unicode_len();
    let mut first: Option<usize> = None;
    let mut second: Option<usize> = None;
    let mut i: usize = 0;
    while i < n
        invariant
            n == value@.len(),
            i <= n,
            first is None ==> second is None && forall|j: int| 0 <= j < i ==> value@[j] != ' ',
            first matches Some(p) ==> p < i && value@[p as int] == ' ',
            first matches Some(p) ==> (second is None ==> forall|j: int|
                0 <= j < i && j != p ==> value@[j] != ' '),
            second matches Some(q) ==> q < i && value@[q as int] == ' ' && first is Some && q
                != first->0,
        decreases n - i,
    {
        if value.get_char(i) == ' ' {
            if first.is_none() {
                first = Some(i);
            } else if second.is_none() {
                second = Some(i);
            }
        }
        i = i + 1;
    }
    match (first, second) {
        (Some(p), None) => {
            assert(only_space_at(value@, p as int));
            let t = value.substring_char(p + 1, n);
            proof {
                let c = choose|i: int| only_space_at(value@, i);
                assert(c == p);
            }
            Some(String::from_str(t))
        },
        (Some(p), Some(q)) => {
            assert forall|i: int| !only_space_at(value@, i) by {
                if only_space_at(value@, i) {
                    assert(value@[p as int] == ' ' && value@[q as int] == ' ');
                }
            }
            None
        },
        _ => {
            assert forall|i: int| !only_space_at(value@, i) by {}
            None
        },
    }
}

/// The token that the `Authorization` header carries, or why there is none.
pub open spec fn header_token(header: AuthHeader) -> Result<Seq<char>, AuthRejection> {
    match header {
        AuthHeader::Missing => Err(AuthRejection::NotAuthorized),
        AuthHeader::Unreadable(m) => Err(AuthRejection::Unreadable(m)),
        AuthHeader::Present(v) => match bearer_token_of(v@) {
            Some(t) => Ok(t),
            None => Err(AuthRejection::BadHeaders),
        },
    }
}

/// Reads the token out of the `Authorization` header: a missing header is
/// not authorised, an unreadable one is refused with its reason, and a value
/// that is not two words separated by one space is a bad header.
pub fn token_from_header(header: &AuthHeader) -> (r: Result<String, AuthRejection>)
    ensures
        match (r, header_token(*header)) {
            (Ok(t), Ok(expected)) => t@ == expected,
            (Err(e), Err(expected)) => e == expected,
            _ => false,
        },
        *header is Missing ==> r matches Err(AuthRejection::NotAuthorized),
        header matches AuthHeader::Unreadable(m) ==> (r matches Err(AuthRejection::Unreadable(n))
            && n@ == m@),
        header matches AuthHeader::Present(v) ==> (r is Err ==> r matches Err(AuthRejection::BadHeaders)),
        r matches Ok(t) ==> (header matches AuthHeader::Present(v) && exists|i: int|
            0 <= i < v@.len() && #[trigger] v@[i] == ' ' && t@ == v@.subrange(i + 1, v@.len() as int)
                && forall|j: int| 0 <= j < v@.len() && j != i ==> v@[j] != ' '),
        header matches AuthHeader::Present(v) ==> ((exists|i: int|
            0 <= i < v@.len() && #[trigger] v@[i] == ' ' && forall|j: int|
                0 <= j < v@.len() && j != i ==> v@[j] != ' ') ==> r is Ok),
{
    match header {
        AuthHeader::Missing => Err(AuthRejection::NotAuthorized),
        AuthHeader::Unreadable(m) => Err(AuthRejection::Unreadable(m.clone())),
        AuthHeader::Present(v) => match bearer_token(v.as_str()) {
            Some(t) => Ok(t),
            None => Err(AuthRejection::BadHeaders),
        },
    }
}

/// Whether a caller carries the subject, role and organization of claims.
pub open spec fn carries_claims(u: AuthorizedUser, c: Claims) -> bool {
    &&& u.sub@ == c.sub@
    &&& u.role@ == c.role@
    &&& u.organization@ == c.organization@
}

impl AuthorizedUser {
    /// Establishes the caller of a request from its `Authorization` header
    /// and from what decoding the header's token gave (`None` when the token
    /// did not decode or verify). The caller keeps the whole header value as
    /// its token and the subject, role and organization of the claims.
    pub fn from_request(header: &AuthHeader, decoded: Option<Claims>) -> (r: Result<AuthorizedUser, AuthRejection>)
        ensures
            match header_token(*header) {
                Err(e) => r matches Err(found) && found == e,
                Ok(_) => match decoded {
                    None => r matches Err(found) && found == AuthRejection::NotAuthorized,
                    Some(c) => r matches Ok(u) && header matches AuthHeader::Present(v)
                        && u.token@ == v@ && carries_claims(u, c),
                },
            },
            r matches Ok(u) ==> (header matches AuthHeader::Present(v) && u.token@ == v@),
            r matches Ok(u) ==> (decoded matches Some(c) && u.sub@ == c.sub@ && u.role@ == c.role@
                && u.organization@ == c.organization@),
            *header is Missing ==> r matches Err(AuthRejection::NotAuthorized),
            decoded is None ==> r is Err,
    {
        match token_from_header(header) {
            Err(e) => Err(e),
            Ok(_) => match decoded {
                None => Err(AuthRejection::NotAuthorized),
                Some(c) => {
                    let value = match header {
                        AuthHeader::Present(v) => v.clone(),
                        _ => String::new(),
                    };
                    Ok(AuthorizedUser { token: value, sub: c.sub, role: c.role, organization: c.organization })
                },
            },
        }
    }
}

} // verus!
