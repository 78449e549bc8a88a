//! The credential gate: every inbound request presents a bearer token; the
//! gate resolves it to a user through the repository's key lookup and
//! admits or rejects the request. It keeps no state between requests.

use vstd::prelude::*;
use crate::errors::DataError;
use crate::models::User;
use crate::pool::Pool;
use crate::repository::Repository;
use crate::store::{has_api_key, user_with_key};

verus! {

/// A cause of rejection.
#[derive(Debug, Clone, Copy, PartialEq, Eq, Structural)]
pub enum RejectReason {
    /// No token, an empty token, or a malformed bearer header.
    MissingToken,
    /// The token matches no issued API key.
    UnknownToken,
    /// The store could not be asked.
    StoreFailure,
}

/// An outcome of authentication.
#[derive(Debug, Clone, PartialEq)]
pub enum AuthDecision {
    /// The token resolved to this user; the request proceeds.
    Admitted(User),
    /// The request is turned away.
    Rejected(RejectReason),
}

/// The scheme prefix of a bearer authorization header.
pub open spec fn spec_bearer_prefix() -> Seq<char> {
    seq!['B', 'e', 'a', 'r', 'e', 'r', ' ']
}

/// The token carried by an authorization header: the characters after the
/// `Bearer ` scheme prefix, provided there is at least one.
pub open spec fn spec_bearer_token(header: Seq<char>) -> Option<Seq<char>> {
    if header.len() > 7 && header.subrange(0, 7) == spec_bearer_prefix() {
        Some(header.subrange(7, header.len() as int))
    } else {
        None
    }
}

/// Pull the token out of an `Authorization` header value. `None` for a
/// missing scheme, a malformed header, or an empty token.
pub fn extract_bearer_token(header: &str) -> (r: Option<String>)
    ensures
        match r {
            Some(t) => spec_bearer_token(header@) == Some(t@),
            None => spec_bearer_token(header@) is None,
        },
{
    let n = header.unicode_len();
    if n <= 7 {
        return None;
    }
    let ok = header.get_char(0) == 'B' && header.get_char(1) == 'e' && header.get_char(2) == 'a'
        && header.get_char(3) == 'r' && header.get_char(4) == 'e' && header.get_char(5) == 'r'
        && header.get_char(6) == ' ';
    if ok {
        proof {
            assert(header@.subrange(0, 7) =~= spec_bearer_prefix());
        }
        let token = header.substring_char(7, n);
        Some(token.to_owned())
    } else {
        proof {
            assert(header@.subrange(0, 7) != spec_bearer_prefix());
        }
        None
    }
}

/// Whether a token was presented at all: the store is asked only for a
/// non-empty token; an empty one is rejected without a store call.
pub fn token_presented(token: &str) -> (b: bool)
    ensures
        b <==> token@.len() > 0,
{
    !token.is_empty()
}

/// Resolve a presented token against the user table. An empty token is
/// rejected at once, without a store call; an unknown token and a store
/// failure are both rejected, distinguished only by the recorded reason.
pub fn validate_token(repo: &mut Repository, token: &String) -> (d: AuthDecision)
    requires
        old(repo).wf(),
    ensures
        final(repo).wf(),
        final(repo).store == old(repo).store,
        Pool::same_config(old(repo).pool, final(repo).pool),
        token@.len() == 0 ==> {
            &&& d == AuthDecision::Rejected(RejectReason::MissingToken)
            &&& *final(repo) == *old(repo)
        },
        (token@.len() > 0 && old(repo).pool_full()) ==> {
            &&& d == AuthDecision::Rejected(RejectReason::StoreFailure)
            &&& final(repo).pool == old(repo).pool
        },
        (token@.len() > 0 && !old(repo).pool_full()) ==> {
            &&& Pool::round_trip(old(repo).pool, final(repo).pool)
            &&& if has_api_key(old(repo).store@.users, token@) {
                d matches AuthDecision::Admitted(u) && user_with_key(
                    old(repo).store@.users,
                    token@,
                    u@,
                )
            } else {
                d == AuthDecision::Rejected(RejectReason::UnknownToken)
            }
        },
{
    if token.as_str().is_empty() {
        return AuthDecision::Rejected(RejectReason::MissingToken);
    }
    match repo.get_user(token) {
        Ok(Some(u)) => AuthDecision::Admitted(u),
        Ok(None) => AuthDecision::Rejected(RejectReason::UnknownToken),
        Err(_e) => AuthDecision::Rejected(RejectReason::StoreFailure),
    }
}

/// Authenticate one request from its raw `Authorization` header: extract
/// the bearer token, then resolve it. A missing or malformed header is
/// rejected immediately, without a store call.
pub fn authenticate(repo: &mut Repository, header: &str) -> (d: AuthDecision)
    requires
        old(repo).wf(),
    ensures
        final(repo).wf(),
        final(repo).store == old(repo).store,
        Pool::same_config(old(repo).pool, final(repo).pool),
        spec_bearer_token(header@) is None ==> {
            &&& d == AuthDecision::Rejected(RejectReason::MissingToken)
            &&& *final(repo) == *old(repo)
        },
        spec_bearer_token(header@) matches Some(t) ==> {
            &&& old(repo).pool_full() ==> {
                &&& d == AuthDecision::Rejected(RejectReason::StoreFailure)
                &&& final(repo).pool == old(repo).pool
            }
            &&& !old(repo).pool_full() ==> {
                &&& Pool::round_trip(old(repo).pool, final(repo).pool)
                &&& if has_api_key(old(repo).store@.users, t) {
                    d matches AuthDecision::Admitted(u) && user_with_key(
                        old(repo).store@.users,
                        t,
                        u@,
                    )
                } else {
                    d == AuthDecision::Rejected(RejectReason::UnknownToken)
                }
            }
        },
{
    match extract_bearer_token(header) {
        Some(token) => validate_token(repo, &token),
        None => AuthDecision::Rejected(RejectReason::MissingToken),
    }
}

} // verus!
