//! Per-request authentication: from the authorization header to a
//! resolved identity.
//!
//! The state machine is the one every protected route runs: extract the
//! bearer token, verify it, resolve the subject against the live user
//! store, and attach the identity — or reject with one uniform
//! `Unauthorized`, whatever the cause, so the client learns nothing from
//! the failure's shape.

use vstd::prelude::*;
use vstd::string::*;

use crate::auth_service::AuthService;
use crate::error::DomainError;
use crate::jwt::{claims_of, JwtService};
use crate::user_repository::{id_present, UserRepository};

verus! {

/// The identity attached to a request after authentication: enough for
/// ownership checks and auditing, nothing secret.
#[derive(Debug, Clone)]
pub struct AuthenticatedUser {
    pub id: i64,
    pub email: String,
}

/// The token a well-formed authorization header value carries: the
/// non-empty text after the `Bearer ` scheme prefix.
pub open spec fn spec_bearer_token(header: Seq<char>) -> Option<Seq<char>> {
    if header.len() > 7 && header.subrange(0, 7) == "Bearer "@ {
        Some(header.subrange(7, header.len() as int))
    } else {
        None
    }
}

/// Pulls the bearer token out of an authorization header value; `None`
/// when the scheme is missing or the token empty.
pub fn parse_bearer_token(header: &str) -> (r: Option<String>)
    ensures
        r matches Some(t) ==> spec_bearer_token(header@) == Some(t@),
        r is None <==> spec_bearer_token(header@) is None,
{
    proof {
        reveal_strlit("Bearer ");
    }
    let scheme: &str = "Bearer ";
    let n = header.unicode_len();
    if n <= 7 {
        return None;
    }
    let mut i: usize = 0;
    while i < 7
        invariant
            0 <= i <= 7,
            header@.len() > 7,
            "Bearer "@.len() == 7,
            scheme@ == "Bearer "@,
            forall|j: int| 0 <= j < i ==> header@[j] == "Bearer "@[j],
        decreases 7 - i,
    {
        if header.get_char(i) != scheme.get_char(i) {
            proof {
                assert(header@.subrange(0, 7)[i as int] != "Bearer "@[i as int]);
            }
            return None;
        }
        i += 1;
    }
    let token = header.substring_char(7, n);
    proof {
        assert(header@.subrange(0, 7) =~= "Bearer "@);
    }
    Some(token.to_owned())
}

/// Turns a verified token into a live identity: the token must verify
/// against `keys` and the caller's clock `now`, and its subject must still
/// exist in `auth_service`'s store — a deleted account's still-valid token
/// dies here. Every failure is the same `Unauthorized`.
pub fn extract_user_from_token<R: UserRepository>(
    token: &str,
    keys: &JwtService,
    auth_service: &AuthService<R>,
    now: i64,
) -> (r: Result<AuthenticatedUser, DomainError>)
    ensures
        r matches Err(e) ==> e matches DomainError::Unauthorized,
        claims_of(token@, keys.secret()) is None ==> r is Err,
        claims_of(token@, keys.secret()) matches Some(cv) ==> {
            &&& cv.exp < now ==> r is Err
            &&& !id_present(auth_service.users(), cv.user_id) ==> r is Err
            &&& now <= cv.exp && id_present(auth_service.users(), cv.user_id) ==> (
            r matches Ok(u) && u.id as int == cv.user_id && exists|i: int| {
                &&& 0 <= i < auth_service.users().len()
                &&& (#[trigger] auth_service.users()[i]).id == cv.user_id
                &&& auth_service.users()[i].email == u.email@
            })
        },
{
    let claims = match keys.verify_token(token, now) {
        Ok(c) => c,
        Err(_) => {
            return Err(DomainError::Unauthorized);
        },
    };
    let user = match auth_service.get_user(claims.user_id) {
        Ok(u) => u,
        Err(_) => {
            return Err(DomainError::Unauthorized);
        },
    };
    proof {
        let users = auth_service.users();
        let j = choose|j: int| 0 <= j < users.len() && users[j] == user@;
        assert(0 <= j < users.len() && (#[trigger] users[j]).id == user@.id);
    }
    Ok(AuthenticatedUser { id: user.id, email: user.email })
}

/// The whole per-request state machine, from the raw authorization header
/// (or its absence) to an attached identity or the uniform rejection.
pub fn authenticate_request<R: UserRepository>(
    header: Option<&String>,
    keys: &JwtService,
    auth_service: &AuthService<R>,
    now: i64,
) -> (r: Result<AuthenticatedUser, DomainError>)
    ensures
        r matches Err(e) ==> e matches DomainError::Unauthorized,
        header is None ==> r is Err,
        header matches Some(h) ==> {
            &&& spec_bearer_token(h@) is None ==> r is Err
            &&& spec_bearer_token(h@) matches Some(tok) ==> {
                &&& claims_of(tok, keys.secret()) is None ==> r is Err
                &&& claims_of(tok, keys.secret()) matches Some(cv) ==> {
                    &&& cv.exp < now ==> r is Err
                    &&& !id_present(auth_service.users(), cv.user_id) ==> r is Err
                    &&& now <= cv.exp && id_present(auth_service.users(), cv.user_id) ==> (
                    r matches Ok(u) && u.id as int == cv.user_id && exists|i: int| {
                        &&& 0 <= i < auth_service.users().len()
                        &&& (#[trigger] auth_service.users()[i]).id == cv.user_id
                        &&& auth_service.users()[i].email == u.email@
                    })
                }
            }
        },
{
    let h = match header {
        Some(h) => h,
        None => {
            return Err(DomainError::Unauthorized);
        },
    };
    let token = match parse_bearer_token(h.as_str()) {
        Some(t) => t,
        None => {
            return Err(DomainError::Unauthorized);
        },
    };
    extract_user_from_token(token.as_str(), keys, auth_service, now)
}

/// Gate for mutating handlers: the authenticated requester must be the
/// resource's owner; anyone else is turned away as `Forbidden` before any
/// work happens.
pub fn ensure_owner(owner_id: i64, user: &AuthenticatedUser) -> (r: Result<(), DomainError>)
    ensures
        r is Ok <==> owner_id == user.id,
        r matches Err(e) ==> e matches DomainError::Forbidden,
{
    if owner_id != user.id {
        Err(DomainError::Forbidden)
    } else {
        Ok(())
    }
}

} // verus!
