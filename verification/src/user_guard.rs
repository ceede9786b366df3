use vstd::prelude::*;

use crate::error::TellonymError;
use crate::jwt_util::{
    issued_token, lemma_issued_token_names_user, signed_at, token_lifetime_nanos, token_user, JWTUtil,
};
use crate::model::Timestamp;
use crate::text::{after_last_space, decimal_text, last_space_separated, parse_decimal_i32, parse_i32};
use crate::trusted::{jwt_verify, rfc3339_instant, rfc3339_text, utc_now};

verus! {

/// Proof that a request carries a valid access token: the id of the user the
/// token was issued to.
#[derive(Debug)]
pub struct UserGuard(i32);

/// The user that an `Authorization` header value identifies when checked at
/// `now`: the header's last space-separated piece must be a token that
/// verifies under `secret`, whose subject is fresh at `now` and reads as a
/// decimal user id.
pub open spec fn authorized_user(secret: Seq<char>, header: Seq<char>, now: Timestamp) -> Option<i32> {
    token_user(secret, after_last_space(header), now)
}

/// The outcome that the guard gives for a header and the user it identifies.
pub open spec fn guard_outcome(r: Result<UserGuard, TellonymError>, user: Option<i32>) -> bool {
    match user {
        Some(id) => r matches Ok(g) && g.user_id() == id,
        None => r matches Err(e) && e is InvalidJWT,
    }
}

impl UserGuard {
    /// The id of the authenticated user.
    pub closed spec fn user_id(self) -> i32 {
        self.0
    }

    /// The id of the authenticated user.
    pub fn into_inner(self) -> (id: i32)
        ensures
            id == self.user_id(),
    {
        self.0
    }

    fn subject_to_guard(subject: Option<String>) -> (r: Result<UserGuard, TellonymError>)
        ensures
            guard_outcome(
                r,
                match subject {
                    Some(s) => parse_i32(s@),
                    None => None,
                },
            ),
    {
        match subject {
            None => Err(TellonymError::InvalidJWT),
            Some(s) => match parse_decimal_i32(s.as_str()) {
                None => Err(TellonymError::InvalidJWT),
                Some(id) => Ok(UserGuard(id)),
            },
        }
    }

    /// Authenticates a request by the value of its `Authorization` header,
    /// checked at `now`: a missing header is a bad request, and a header that
    /// identifies no user an invalid token.
    pub fn authorize_at(access_secret: &str, authorization: Option<&str>, now: Timestamp) -> (r:
        Result<UserGuard, TellonymError>)
        ensures
            authorization is None ==> (r matches Err(e) && e is BadHeaders),
            authorization matches Some(h) ==> guard_outcome(
                r,
                authorized_user(access_secret@, h@, now),
            ),
    {
        match authorization {
            None => Err(TellonymError::BadHeaders),
            Some(header) => {
                let token = last_space_separated(header);
                match jwt_verify(access_secret, token.as_str()) {
                    Err(_) => Err(TellonymError::InvalidJWT),
                    Ok(claims) => {
                        let subject = JWTUtil::verify_jwt_at(&claims, now);
                        UserGuard::subject_to_guard(subject)
                    },
                }
            },
        }
    }

    /// Authenticates a request by the value of its `Authorization` header,
    /// reading the clock: a missing header is a bad request, and a header that
    /// identifies no user an invalid token.
    pub fn from_authorization(access_secret: &str, authorization: Option<&str>) -> (r: Result<
        UserGuard,
        TellonymError,
    >)
        ensures
            authorization is None ==> (r matches Err(e) && e is BadHeaders),
            authorization matches Some(h) ==> exists|now: Timestamp|
                now.secs >= 0 && now.nanos < 1_000_000_000 && guard_outcome(
                    r,
                    #[trigger] authorized_user(access_secret@, h@, now),
                ),
    {
        let now = utc_now();
        let r = UserGuard::authorize_at(access_secret, authorization, now);
        if let Some(h) = authorization {
            assert(guard_outcome(r, authorized_user(access_secret@, h@, now)));
        }
        r
    }
}

proof fn lemma_after_last_space_of_suffix(prefix: Seq<char>, token: Seq<char>)
    requires
        prefix.len() == 0 || prefix.last() == ' ',
        forall|k: int| 0 <= k < token.len() ==> token[k] != ' ',
    ensures
        after_last_space(prefix + token) == token,
    decreases token.len(),
{
    if token.len() == 0 {
        assert(prefix + token =~= prefix);
    } else {
        let shorter = token.drop_last();
        assert forall|k: int| 0 <= k < shorter.len() implies shorter[k] != ' ' by {
            assert(shorter[k] == token[k]);
        }
        lemma_after_last_space_of_suffix(prefix, shorter);
        assert((prefix + token).drop_last() =~= prefix + shorter);
        assert((prefix + token).last() == token.last());
        assert(shorter.push(token.last()) =~= token);
    }
}

/// A token issued for the user `id` at an RFC 3339 time authenticates that
/// user, alone or behind a prefix that ends in a space (such as `Bearer `),
/// until fifteen minutes after the time it names, and from then on no longer.
pub proof fn lemma_issued_token_authorizes(
    secret: Seq<char>,
    token: Seq<char>,
    prefix: Seq<char>,
    id: i32,
    issued_at: Seq<char>,
    now: Timestamp,
)
    requires
        issued_token(secret, token, decimal_text(id as int), issued_at),
        rfc3339_instant(issued_at) is Some,
        prefix.len() == 0 || prefix.last() == ' ',
    ensures
        ({
            let (secs, nanos) = rfc3339_instant(issued_at)->0;
            authorized_user(secret, prefix + token, now) == if now.total_nanos() - (secs
                * 1_000_000_000 + nanos) < token_lifetime_nanos() {
                Some(id)
            } else {
                None
            }
        }),
{
    lemma_after_last_space_of_suffix(prefix, token);
    lemma_issued_token_names_user(secret, token, id, issued_at, now);
}

/// A token that `sign_jwt` issued for the user `id` when the clock read
/// `issued` (before the year 10000), as login, registration and refresh hand
/// them out, authenticates that user, alone or behind a prefix that ends in a
/// space (such as `Bearer `), until fifteen minutes after `issued`, and from
/// then on no longer.
pub proof fn lemma_signed_token_authorizes(
    secret: Seq<char>,
    token: Seq<char>,
    prefix: Seq<char>,
    id: i32,
    issued: Timestamp,
    now: Timestamp,
)
    requires
        signed_at(secret, token, decimal_text(id as int), issued),
        issued.secs < 253_402_300_800,
        prefix.len() == 0 || prefix.last() == ' ',
    ensures
        authorized_user(secret, prefix + token, now) == if now.total_nanos() - issued.total_nanos()
            < token_lifetime_nanos() {
            Some(id)
        } else {
            None
        },
{
    lemma_issued_token_authorizes(secret, token, prefix, id, rfc3339_text(issued.secs, issued.nanos), now);
}

} // verus!
