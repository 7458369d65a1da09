//! The rules of the HTTP endpoints: which answer a service outcome gets, and
//! who may read a user.

use vstd::prelude::*;
use crate::models::{AuthorizedUser, Claims, Info, carries_claims};
use crate::service::{UserServiceResult, UserServiceError, UserRecord, MarshalledUser, claims_issued, marshalled};


verus! {

/// The answer of an endpoint.
pub enum Reply<T> {
    /// 200, with the value as body.
    Success(T),
    /// 400, with the service error as body.
    BadRequest(UserServiceError),
    /// 401, with no body.
    Unauthorized,
    /// 500, with no body.
    InternalServerError,
}

/// The answer for the outcome of a service call that ran on the worker
/// pool; `None` when the call was canceled.
pub fn reply_for<T>(outcome: Option<UserServiceResult<T>>) -> (r: Reply<T>)
    ensures
        match outcome {
            Some(Ok(v)) => r matches Reply::Success(w) && w == v,
            Some(Err(e)) => r matches Reply::BadRequest(f) && f == e,
            None => r is InternalServerError,
        },
{
    match outcome {
        Some(Ok(v)) => Reply::Success(v),
        Some(Err(e)) => Reply::BadRequest(e),
        None => Reply::InternalServerError,
    }
}

/// Who may read a user: only a caller whose subject is that user and whose
/// role is `Admin`.
pub open spec fn view_allowed(requestor: Option<AuthorizedUser>, user_id: Seq<char>) -> bool {
    match requestor {
        Some(u) => u.sub@ == user_id && u.role@ == "Admin"@,
        None => false,
    }
}

/// Reading a user is allowed to exactly one kind of caller: one whose
/// subject is that very user id, character for character, and whose role is
/// exactly `Admin`. Another user id, even one sharing a prefix, another role,
/// or no established caller is refused.
pub proof fn lemma_view_only_own_record_as_admin(requestor: Option<AuthorizedUser>, user_id: Seq<char>)
    ensures
        view_allowed(requestor, user_id) ==> (requestor matches Some(u) && u.sub@ == user_id
            && u.role@ == "Admin"@),
        requestor matches Some(u) ==> (u.sub@ == user_id && u.role@ == "Admin"@ ==> view_allowed(
            requestor,
            user_id,
        )),
        requestor is None ==> !view_allowed(requestor, user_id),
{
}

/// Whether the caller may read the user named in the path. A caller that
/// could not be established, another user, or a role other than `Admin` is
/// refused with 401.
pub fn may_view_user(requestor: &Option<AuthorizedUser>, info: &Info) -> (ok: bool)
    ensures
        ok == view_allowed(*requestor, info.user_id@),
        ok ==> (requestor matches Some(u) && u.sub@ == info.user_id@ && u.role@ == "Admin"@),
        requestor matches Some(u) ==> (u.sub@ == info.user_id@ && u.role@ == "Admin"@ ==> ok),
        requestor matches Some(u) ==> (u.sub@ != info.user_id@ ==> !ok),
        requestor matches Some(u) ==> (u.role@ != "Admin"@ ==> !ok),
        requestor is None ==> !ok,
{
    match requestor {
        None => false,
        Some(u) => {
            let admin = String::from_str("Admin");
            u.sub == info.user_id && u.role == admin
        },
    }
}

/// A caller holding the token issued at login to a stored user may read that
/// user's record exactly when the user's role is `Admin`.
pub proof fn lemma_own_record_needs_admin(
    u: UserRecord,
    now: int,
    c: Claims,
    a: AuthorizedUser,
    m: MarshalledUser,
)
    requires
        claims_issued(u, now, c),
        carries_claims(a, c),
        marshalled(u, m),
    ensures
        view_allowed(Some(a), m._id@) <==> u.role@ == "Admin"@,
{
}

} // verus!
