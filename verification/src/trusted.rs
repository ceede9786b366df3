use vstd::prelude::*;

use crate::model::Timestamp;
use crate::text::is_whitespace;
use hmac::{Hmac, Mac};
use jwt::{SignWithKey, VerifyWithKey};
use sha2::Sha256;
use std::collections::BTreeMap;

verus! {

/// The error of `bcrypt`'s functions, carried through and never looked into.
#[verifier::external_type_specification]
#[verifier::external_body]
pub struct ExBcryptError(bcrypt::BcryptError);

/// The error of `jwt`'s verification, carried through and never looked into.
#[verifier::external_type_specification]
#[verifier::external_body]
pub struct ExJwtError(jwt::Error);

/// The error of `chrono`'s parsing, carried through and never looked into.
#[verifier::external_type_specification]
#[verifier::external_body]
pub struct ExChronoParseError(chrono::ParseError);

/// What `bcrypt::verify` answers for a password and a stored hash: whether
/// the password matches, or `None` where bcrypt cannot read the hash.
pub uninterp spec fn bcrypt_verifies(password: Seq<char>, hash: Seq<char>) -> Option<bool>;

/// Calls `bcrypt::verify(password, hash)`, which is a function of its two
/// arguments alone; its answer is named `bcrypt_verifies`.
#[verifier::external_body]
pub(crate) fn bcrypt_verify(password: &str, hash: &str) -> (r: Result<bool, bcrypt::BcryptError>)
    ensures
        r is Ok <==> bcrypt_verifies(password@, hash@) is Some,
        r matches Ok(b) ==> bcrypt_verifies(password@, hash@) == Some(b),
{
    bcrypt::verify(password, hash)
}

/// Calls `bcrypt::hash(password, bcrypt::DEFAULT_COST)`. The salt is drawn
/// from the operating system's randomness, so the hash is not a function of
/// the password; what holds of every hash it returns is that `bcrypt::verify`
/// accepts the password against it (it recomputes the hash with the salt and
/// cost stored in it). The hash is written as `$2b$12$` (version and cost)
/// followed by the 22 characters of the salt and the 31 of the digest in
/// bcrypt's base64 alphabet: 60 characters that neither begin nor end with
/// whitespace. It fails only when no randomness can be
/// had; nothing is said of when that happens.
#[verifier::external_body]
pub(crate) fn bcrypt_hash(password: &str) -> (r: Result<String, bcrypt::BcryptError>)
    ensures
        r matches Ok(h) ==> bcrypt_verifies(password@, h@) == Some(true),
        r matches Ok(h) ==> h@.len() > 0 && !is_whitespace(h@[0]) && !is_whitespace(h@.last()),
        r matches Ok(h) ==> h@.len() == 60 && h@.subrange(0, 7) == "$2b$12$"@,
{
    bcrypt::hash(password, bcrypt::DEFAULT_COST)
}

/// The HS256 JSON web token that `jwt::SignWithKey::sign_with_key` makes of
/// the claims (collected into a `BTreeMap`, a later pair winning over an
/// earlier one with the same name) under an HMAC-SHA256 key made of `secret`.
pub uninterp spec fn hs256_token(secret: Seq<char>, claims: Seq<(Seq<char>, Seq<char>)>) -> Seq<char>;

/// The names of the claims are distinct and in the order in which a
/// `BTreeMap<String, String>` holds them (that of `str`, by code points).
pub open spec fn names_in_map_order(claims: Seq<(Seq<char>, Seq<char>)>) -> bool {
    forall|i: int, j: int| 0 <= i < j < claims.len() ==> text_less(claims[i].0, claims[j].0)
}

/// `a` comes before `b` in the lexicographic order of their characters.
pub open spec fn text_less(a: Seq<char>, b: Seq<char>) -> bool
    decreases a.len(),
{
    if b.len() == 0 {
        false
    } else if a.len() == 0 {
        true
    } else if a[0] != b[0] {
        (a[0] as u32) < (b[0] as u32)
    } else {
        text_less(a.drop_first(), b.drop_first())
    }
}

/// Signs the claims with `jwt::SignWithKey::sign_with_key` under
/// `Hmac::<Sha256>::new_from_slice(secret)`; the token is named `hs256_token`.
/// The source of `hmac` accepts a key of any length, and signing string
/// claims with an HMAC key cannot fail there. The token is three base64url
/// pieces joined by `.`, so it holds no space; and `verify_with_key` under the
/// same secret reads back the `BTreeMap` the claims were collected into (the
/// HS256 header and the signature match, and JSON gives back its strings),
/// which is the claims themselves when their names are already distinct and
/// in the map's order.
#[verifier::external_body]
pub(crate) fn jwt_sign(secret: &str, claims: Vec<(String, String)>) -> (token: String)
    ensures
        token@ == hs256_token(secret@, claims.deep_view()),
        forall|k: int| 0 <= k < token@.len() ==> token@[k] != ' ',
        names_in_map_order(claims.deep_view()) ==> hs256_claims(secret@, token@) == Some(
            claims.deep_view(),
        ),
{
    let key: Hmac<Sha256> = Hmac::new_from_slice(secret.as_bytes()).unwrap();
    let map: BTreeMap<String, String> = claims.into_iter().collect();
    map.sign_with_key(&key).unwrap()
}

/// The claims that `jwt::VerifyWithKey::verify_with_key` reads out of `token`
/// as a `BTreeMap<String, String>` under an HMAC-SHA256 key made of `secret`,
/// in the map's order; `None` where the token does not verify (bad form,
/// algorithm other than HS256, claims other than strings, wrong signature).
pub uninterp spec fn hs256_claims(secret: Seq<char>, token: Seq<char>) -> Option<
    Seq<(Seq<char>, Seq<char>)>,
>;

/// Verifies `token` with `jwt::VerifyWithKey::verify_with_key` under
/// `Hmac::<Sha256>::new_from_slice(secret)` and hands out the claims map as its
/// pairs; the outcome is named `hs256_claims`. The names in a `BTreeMap` are
/// distinct.
#[verifier::external_body]
pub(crate) fn jwt_verify(secret: &str, token: &str) -> (r: Result<Vec<(String, String)>, jwt::Error>)
    ensures
        r is Ok <==> hs256_claims(secret@, token@) is Some,
        r matches Ok(claims) ==> hs256_claims(secret@, token@) == Some(claims.deep_view()),
        r matches Ok(claims) ==> forall|i: int, j: int|
            0 <= i < j < claims@.len() ==> claims@[i].0@ != claims@[j].0@,
{
    let key: Hmac<Sha256> = Hmac::new_from_slice(secret.as_bytes()).unwrap();
    let map: Result<BTreeMap<String, String>, jwt::Error> = token.verify_with_key(&key);
    match map {
        Ok(m) => Ok(m.into_iter().collect()),
        Err(e) => Err(e),
    }
}

/// Reads the clock with `chrono::Utc::now()`: the whole seconds since the
/// epoch (`timestamp`) and the nanoseconds past them (`timestamp_subsec_nanos`).
/// The reading depends on the time of the call. `Utc::now` builds it from the
/// system time's duration since the epoch, so the seconds are not negative
/// and the nanoseconds are those of a duration, below one second (it panics
/// on a system time before the epoch); nothing else is said of it.
#[verifier::external_body]
pub(crate) fn utc_now() -> (t: Timestamp)
    ensures
        t.secs >= 0,
        t.nanos < 1_000_000_000,
{
    let now = chrono::Utc::now();
    Timestamp { secs: now.timestamp(), nanos: now.timestamp_subsec_nanos() }
}

/// The instant lies in the years 0 to 9999 and is not inside a leap second:
/// the range in which `to_rfc3339` writes a four-digit year and whole
/// seconds below 60.
pub open spec fn in_rfc3339_range(t: Timestamp) -> bool {
    -62_167_219_200 <= t.secs < 253_402_300_800 && t.nanos < 1_000_000_000
}

/// The text that `to_rfc3339` writes for the UTC instant `secs` seconds and
/// `nanos` nanoseconds after the epoch; for a `DateTime<Utc>` it depends on
/// the instant alone.
pub uninterp spec fn rfc3339_text(secs: i64, nanos: u32) -> Seq<char>;

/// Reads the clock once with `chrono::Utc::now()` and gives it both as
/// seconds and nanoseconds since the epoch and written with `to_rfc3339`,
/// whose text is named `rfc3339_text`. The reading depends on the time of the
/// call; as for `utc_now`, its seconds are not negative and its nanoseconds
/// below one second. In the range of four-digit years, `to_rfc3339` writes
/// the date, the time, the fraction of the second in 0, 3, 6 or 9 digits
/// (enough to hold it exactly) and `+00:00`, which `parse_from_rfc3339` reads
/// back as the same instant; nothing is said of the text outside that range.
#[verifier::external_body]
pub(crate) fn utc_now_with_rfc3339() -> (r: (Timestamp, String))
    ensures
        r.0.secs >= 0,
        r.0.nanos < 1_000_000_000,
        r.1@ == rfc3339_text(r.0.secs, r.0.nanos),
        in_rfc3339_range(r.0) ==> rfc3339_instant(rfc3339_text(r.0.secs, r.0.nanos)) == Some(
            (r.0.secs, r.0.nanos),
        ),
{
    let now = chrono::Utc::now();
    (Timestamp { secs: now.timestamp(), nanos: now.timestamp_subsec_nanos() }, now.to_rfc3339())
}

/// The instant that `chrono::DateTime::parse_from_rfc3339` reads out of the
/// text, as seconds since the epoch and nanoseconds past them; `None` where
/// the text is not an RFC 3339 date and time.
pub uninterp spec fn rfc3339_instant(text: Seq<char>) -> Option<(i64, u32)>;

/// Parses the text with `chrono::DateTime::parse_from_rfc3339`; the outcome is
/// named `rfc3339_instant`.
#[verifier::external_body]
pub(crate) fn parse_rfc3339(text: &str) -> (r: Result<Timestamp, chrono::ParseError>)
    ensures
        r is Ok <==> rfc3339_instant(text@) is Some,
        r matches Ok(t) ==> rfc3339_instant(text@) == Some((t.secs, t.nanos)),
{
    match chrono::DateTime::parse_from_rfc3339(text) {
        Ok(d) => Ok(Timestamp { secs: d.timestamp(), nanos: d.timestamp_subsec_nanos() }),
        Err(e) => Err(e),
    }
}

} // verus!
