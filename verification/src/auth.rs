use vstd::prelude::*;

use crate::error::TellonymError;
use crate::jwt_util::{signed_at, token_user, JWTUtil};
use crate::model::{NewUser, Timestamp, User};
use crate::requests::LoginData;
use crate::text::{decimal_text, format_i32, parse_decimal_i32};
use crate::trusted::{bcrypt_hash, bcrypt_verifies, bcrypt_verify, jwt_verify, utc_now};

verus! {

/// How a login with `password` against the stored bcrypt `hash` ends.
#[derive(Debug)]
pub enum LoginVerdict {
    /// The password matches.
    Accepted,
    /// The password does not match.
    Rejected,
    /// bcrypt cannot read the stored hash.
    Unreadable,
}

/// How a login with `password` against the stored bcrypt `hash` ends.
pub open spec fn login_verdict(password: Seq<char>, hash: Seq<char>) -> LoginVerdict {
    match bcrypt_verifies(password, hash) {
        Some(true) => LoginVerdict::Accepted,
        Some(false) => LoginVerdict::Rejected,
        None => LoginVerdict::Unreadable,
    }
}

/// `token` is a token signed with `secret` whose subject is the user id `id`
/// written in decimal, issued when the clock read some time (see
/// `signed_at`).
pub open spec fn is_token_for(token: Seq<char>, secret: Seq<char>, id: i32) -> bool {
    exists|issued: Timestamp| #[trigger] signed_at(secret, token, decimal_text(id as int), issued)
}

/// The access token and the refresh token for the user `user_id`, signed with
/// their two secrets and issued now; their subject is the id in decimal.
pub fn issue_tokens(access_secret: &str, refresh_secret: &str, user_id: i32) -> (tokens: (String, String))
    ensures
        is_token_for(tokens.0@, access_secret@, user_id),
        is_token_for(tokens.1@, refresh_secret@, user_id),
{
    let subject = format_i32(user_id);
    let access = JWTUtil::sign_jwt(access_secret, subject.clone());
    let refresh = JWTUtil::sign_jwt(refresh_secret, subject);
    (access, refresh)
}

/// The form of every hash that `bcrypt_hash` writes: 60 characters that begin
/// with `$2b$12$`.
pub open spec fn bcrypt_hash_form(h: Seq<char>) -> bool {
    h.len() == 60 && h.subrange(0, 7) == "$2b$12$"@
}

/// The user record that a registration stores, given the outcome of hashing
/// the password (`None` when hashing failed): the username and the hash, or a
/// server error.
pub fn register_with_hash(register_data: &LoginData, hashed: Option<String>) -> (r: Result<
    NewUser,
    TellonymError,
>)
    ensures
        hashed matches Some(h) ==> (r matches Ok(u) && u.username@ == register_data.username@
            && u.password@ == h@),
        hashed is None ==> (r matches Err(e) && e is ServerError),
{
    match hashed {
        None => Err(TellonymError::ServerError),
        Some(h) => Ok(NewUser { username: register_data.username.clone(), password: h }),
    }
}

/// The user record that a registration stores: the username, and the bcrypt
/// hash of the password, with which a login with that password is accepted;
/// the hash differs from the password unless the password itself has the
/// form of a bcrypt hash. Hashing can fail for want of randomness, which is a
/// server error.
pub fn register(register_data: &LoginData) -> (r: Result<NewUser, TellonymError>)
    ensures
        r matches Ok(u) ==> {
            &&& u.username@ == register_data.username@
            &&& login_verdict(register_data.password@, u.password@) == LoginVerdict::Accepted
            &&& bcrypt_hash_form(u.password@)
            &&& !bcrypt_hash_form(register_data.password@) ==> u.password@ != register_data.password@
        },
        r matches Err(e) ==> e is ServerError,
{
    let hashed = match bcrypt_hash(register_data.password.as_str()) {
        Err(_) => None,
        Ok(h) => Some(h),
    };
    register_with_hash(register_data, hashed)
}

/// The login with `login_data`, where `found` is the stored user with that
/// username, if any: an unknown username is not found; a password that
/// matches the stored hash gets an access and a refresh token for the user's
/// id; one that does not is an invalid login; a stored hash that bcrypt
/// cannot read is a server error.
pub fn login(access_secret: &str, refresh_secret: &str, login_data: &LoginData, found: Option<&User>) -> (r:
    Result<(String, String), TellonymError>)
    ensures
        found is None ==> (r matches Err(e) && e is ResourceNotFound),
        found matches Some(user) ==> {
            &&& login_verdict(login_data.password@, user.password@) == LoginVerdict::Accepted <==> r is Ok
            &&& login_verdict(login_data.password@, user.password@) == LoginVerdict::Rejected <==> (
            r matches Err(e) && e is InvalidLogin)
            &&& login_verdict(login_data.password@, user.password@) == LoginVerdict::Unreadable <==> (
            r matches Err(e) && e is ServerError)
            &&& r matches Ok(tokens) ==> is_token_for(tokens.0@, access_secret@, user.id)
                && is_token_for(tokens.1@, refresh_secret@, user.id)
        },
{
    match found {
        None => Err(TellonymError::ResourceNotFound),
        Some(user) => match bcrypt_verify(login_data.password.as_str(), user.password.as_str()) {
            Err(_) => Err(TellonymError::ServerError),
            Ok(false) => Err(TellonymError::InvalidLogin),
            Ok(true) => Ok(issue_tokens(access_secret, refresh_secret, user.id)),
        },
    }
}

/// A new access token in exchange for the refresh token in the request's
/// cookie, checked at `now`: a missing cookie is refused, as is a token that
/// names no user at `now`; otherwise the access token is for the user the
/// refresh token names.
pub fn refresh_at(
    refresh_secret: &str,
    access_secret: &str,
    refresh_token: Option<&str>,
    now: Timestamp,
) -> (r: Result<String, TellonymError>)
    ensures
        refresh_token is None ==> (r matches Err(e) && e is NoRefreshCookie),
        refresh_token matches Some(token) ==> match token_user(refresh_secret@, token@, now) {
            None => r matches Err(e) && e is InvalidJWT,
            Some(id) => r matches Ok(t) && is_token_for(t@, access_secret@, id),
        },
{
    match refresh_token {
        None => Err(TellonymError::NoRefreshCookie),
        Some(token) => match jwt_verify(refresh_secret, token) {
            Err(_) => Err(TellonymError::InvalidJWT),
            Ok(claims) => match JWTUtil::verify_jwt_at(&claims, now) {
                None => Err(TellonymError::InvalidJWT),
                Some(subject) => match parse_decimal_i32(subject.as_str()) {
                    None => Err(TellonymError::InvalidJWT),
                    Some(id) => Ok(JWTUtil::sign_jwt(access_secret, format_i32(id))),
                },
            },
        },
    }
}

/// A new access token in exchange for the refresh token in the request's
/// cookie, checked against the clock; see `refresh_at`.
pub fn refresh(refresh_secret: &str, access_secret: &str, refresh_token: Option<&str>) -> (r:
    Result<String, TellonymError>)
    ensures
        refresh_token is None ==> (r matches Err(e) && e is NoRefreshCookie),
        refresh_token matches Some(token) ==> exists|now: Timestamp|
            match #[trigger] token_user(refresh_secret@, token@, now) {
                None => r matches Err(e) && e is InvalidJWT,
                Some(id) => r matches Ok(t) && is_token_for(t@, access_secret@, id),
            },
{
    let now = utc_now();
    let r = refresh_at(refresh_secret, access_secret, refresh_token, now);
    if let Some(token) = refresh_token {
        assert(match token_user(refresh_secret@, token@, now) {
            None => r matches Err(e) && e is InvalidJWT,
            Some(id) => r matches Ok(t) && is_token_for(t@, access_secret@, id),
        });
    }
    r
}

} // verus!
