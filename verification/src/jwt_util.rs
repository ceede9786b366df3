use vstd::prelude::*;

use crate::model::Timestamp;
use crate::text::{decimal_text, lemma_parse_formatted_i32, parse_i32, str_equal};
use crate::trusted::{
    hs256_claims, hs256_token, jwt_sign, jwt_verify, names_in_map_order, parse_rfc3339,
    rfc3339_instant, rfc3339_text, text_less, utc_now, utc_now_with_rfc3339, in_rfc3339_range,
};

verus! {

/// Signing and checking of the JSON web tokens that identify a user.
pub struct JWTUtil;

/// The claims of a token for `subject` issued at the RFC 3339 time `issued_at`,
/// in the order of their names.
pub open spec fn token_claims(subject: Seq<char>, issued_at: Seq<char>) -> Seq<(Seq<char>, Seq<char>)> {
    seq![("iad"@, issued_at), ("sub"@, subject)]
}

/// `token` is the token signed with `secret` for `subject`, issued at the
/// RFC 3339 time `issued_at`: it holds no space, and verifying it under the
/// same secret reads back its claims.
pub open spec fn issued_token(secret: Seq<char>, token: Seq<char>, subject: Seq<char>, issued_at: Seq<char>) -> bool {
    &&& token == hs256_token(secret, token_claims(subject, issued_at))
    &&& forall|k: int| 0 <= k < token.len() ==> token[k] != ' '
    &&& hs256_claims(secret, token) == Some(token_claims(subject, issued_at))
}

/// The value of the first claim named `name`.
pub open spec fn claim_value(claims: Seq<(Seq<char>, Seq<char>)>, name: Seq<char>) -> Option<Seq<char>>
    decreases claims.len(),
{
    if claims.len() == 0 {
        None
    } else if claims[0].0 == name {
        Some(claims[0].1)
    } else {
        claim_value(claims.drop_first(), name)
    }
}

/// How long a token stays valid after it was issued: fifteen minutes, in nanoseconds.
pub open spec fn token_lifetime_nanos() -> int {
    900_000_000_000
}

/// The subject of a token with these claims, checked at `now`: the `sub`
/// claim, where an `iad` claim holds an RFC 3339 time less than fifteen
/// minutes before `now`.
pub open spec fn fresh_subject(claims: Seq<(Seq<char>, Seq<char>)>, now: Timestamp) -> Option<Seq<char>> {
    match claim_value(claims, "sub"@) {
        None => None,
        Some(subject) => match claim_value(claims, "iad"@) {
            None => None,
            Some(issued_at) => match rfc3339_instant(issued_at) {
                None => None,
                Some(instant) => if now.total_nanos() - (instant.0 * 1_000_000_000 + instant.1)
                    >= token_lifetime_nanos() {
                    None
                } else {
                    Some(subject)
                },
            },
        },
    }
}

/// The texts are equal.
pub open spec fn same_text(r: Option<String>, s: Option<Seq<char>>) -> bool {
    match r {
        Some(t) => s == Some(t@),
        None => s is None,
    }
}

fn find_claim(claims: &Vec<(String, String)>, name: &str) -> (r: Option<String>)
    ensures
        same_text(r, claim_value(claims.deep_view(), name@)),
{
    let ghost all = claims.deep_view();
    let mut i: usize = 0;
    assert(all.skip(0) =~= all);
    while i < claims.len()
        invariant
            all == claims.deep_view(),
            i <= claims.len(),
            claim_value(all, name@) == claim_value(all.skip(i as int), name@),
        decreases claims.len() - i,
    {
        assert(all.skip(i as int)[0] == all[i as int]);
        if str_equal(claims[i].0.as_str(), name) {
            return Some(claims[i].1.clone());
        }
        assert(all.skip(i as int).drop_first() =~= all.skip(i + 1));
        i = i + 1;
    }
    None
}

/// The user id that a token names when checked at `now`: the token must
/// verify under `secret`, and its subject be fresh at `now` and read as a
/// decimal user id.
pub open spec fn token_user(secret: Seq<char>, token: Seq<char>, now: Timestamp) -> Option<i32> {
    match hs256_claims(secret, token) {
        None => None,
        Some(claims) => match fresh_subject(claims, now) {
            None => None,
            Some(subject) => parse_i32(subject),
        },
    }
}

/// A token issued for `subject` at an RFC 3339 time verifies under its secret,
/// and its subject counts as fresh until fifteen minutes after the time it
/// names, and from then on no longer.
pub proof fn lemma_issued_token_fresh_subject(
    secret: Seq<char>,
    token: Seq<char>,
    subject: Seq<char>,
    issued_at: Seq<char>,
    now: Timestamp,
)
    requires
        issued_token(secret, token, subject, issued_at),
        rfc3339_instant(issued_at) is Some,
    ensures
        ({
            let (secs, nanos) = rfc3339_instant(issued_at)->0;
            &&& hs256_claims(secret, token) == Some(token_claims(subject, issued_at))
            &&& fresh_subject(token_claims(subject, issued_at), now) == if now.total_nanos() - (secs
                * 1_000_000_000 + nanos) < token_lifetime_nanos() {
                Some(subject)
            } else {
                None
            }
        }),
{
    reveal_strlit("iad");
    reveal_strlit("sub");
    let claims = token_claims(subject, issued_at);
    assert("iad"@ != "sub"@) by {
        assert("iad"@[0] != "sub"@[0]);
    }
    assert(claims.drop_first().drop_first() =~= Seq::<(Seq<char>, Seq<char>)>::empty());
    assert(claim_value(claims, "iad"@) == Some(issued_at));
    assert(claims.drop_first()[0].0 == "sub"@);
    assert(claim_value(claims.drop_first(), "sub"@) == Some(subject));
    assert(claim_value(claims, "sub"@) == Some(subject));
}

/// `token` is what `sign_jwt` issues for `subject` with `secret` when the
/// clock reads `issued`: a token whose issue time is that reading written by
/// `to_rfc3339`. A clock reading has seconds that are not negative and
/// nanoseconds below one second, and within four-digit years its text reads
/// back as the reading itself.
pub open spec fn signed_at(secret: Seq<char>, token: Seq<char>, subject: Seq<char>, issued: Timestamp) -> bool {
    &&& issued_token(secret, token, subject, rfc3339_text(issued.secs, issued.nanos))
    &&& issued.secs >= 0
    &&& issued.nanos < 1_000_000_000
    &&& in_rfc3339_range(issued) ==> rfc3339_instant(rfc3339_text(issued.secs, issued.nanos)) == Some(
        (issued.secs, issued.nanos),
    )
}

/// A token that `sign_jwt` issued for `subject` when the clock read `issued`
/// (before the year 10000), checked when the clock reads `now`: its subject is
/// fresh exactly when less than fifteen minutes have passed.
pub proof fn lemma_signed_token_fresh_for_fifteen_minutes(
    secret: Seq<char>,
    token: Seq<char>,
    subject: Seq<char>,
    issued: Timestamp,
    now: Timestamp,
)
    requires
        signed_at(secret, token, subject, issued),
        issued.secs < 253_402_300_800,
    ensures
        hs256_claims(secret, token) matches Some(claims) && fresh_subject(claims, now) == if now.total_nanos()
            - issued.total_nanos() < token_lifetime_nanos() {
            Some(subject)
        } else {
            None
        },
{
    lemma_issued_token_fresh_subject(secret, token, subject, rfc3339_text(issued.secs, issued.nanos), now);
}

/// A token issued for the user `id` at an RFC 3339 time names that user until
/// fifteen minutes after the time it names, and from then on no one.
pub proof fn lemma_issued_token_names_user(
    secret: Seq<char>,
    token: Seq<char>,
    id: i32,
    issued_at: Seq<char>,
    now: Timestamp,
)
    requires
        issued_token(secret, token, decimal_text(id as int), issued_at),
        rfc3339_instant(issued_at) is Some,
    ensures
        ({
            let (secs, nanos) = rfc3339_instant(issued_at)->0;
            token_user(secret, token, now) == if now.total_nanos() - (secs * 1_000_000_000 + nanos)
                < token_lifetime_nanos() {
                Some(id)
            } else {
                None
            }
        }),
{
    lemma_parse_formatted_i32(id);
    lemma_issued_token_fresh_subject(secret, token, decimal_text(id as int), issued_at, now);
}

impl JWTUtil {
    /// The token for `subject` issued at the RFC 3339 time `issued_at`, signed
    /// with `secret`.
    pub fn sign_jwt_at(secret: &str, subject: String, issued_at: String) -> (token: String)
        ensures
            issued_token(secret@, token@, subject@, issued_at@),
    {
        proof {
            reveal_strlit("iad");
            reveal_strlit("sub");
            assert(text_less("iad"@, "sub"@));
            assert(names_in_map_order(token_claims(subject@, issued_at@)));
        }
        let mut claims: Vec<(String, String)> = Vec::new();
        claims.push((String::from_str("iad"), issued_at));
        claims.push((String::from_str("sub"), subject));
        assert(claims.deep_view() =~= token_claims(subject@, issued_at@));
        jwt_sign(secret, claims)
    }

    /// A token for `subject`, signed with `secret`, issued now: its issue time
    /// is the clock's reading written in RFC 3339.
    pub fn sign_jwt(secret: &str, subject: String) -> (token: String)
        ensures
            exists|issued: Timestamp| #[trigger] signed_at(secret@, token@, subject@, issued),
    {
        let (issued, issued_at) = utc_now_with_rfc3339();
        let token = JWTUtil::sign_jwt_at(secret, subject, issued_at);
        assert(signed_at(secret@, token@, subject@, issued));
        token
    }

    /// The subject of a token with the given claims when checked at `now`.
    pub fn verify_jwt_at(claims: &Vec<(String, String)>, now: Timestamp) -> (r: Option<String>)
        ensures
            same_text(r, fresh_subject(claims.deep_view(), now)),
    {
        let subject = find_claim(claims, "sub");
        match subject {
            None => None,
            Some(subject) => {
                let issued_at = find_claim(claims, "iad");
                match issued_at {
                    None => None,
                    Some(issued_at) => match parse_rfc3339(issued_at.as_str()) {
                        Err(_) => None,
                        Ok(instant) => {
                            let elapsed: i128 = (now.secs as i128 - instant.secs as i128)
                                * 1_000_000_000 + (now.nanos as i128 - instant.nanos as i128);
                            if elapsed >= 900_000_000_000 {
                                None
                            } else {
                                Some(subject)
                            }
                        },
                    },
                }
            },
        }
    }

    /// The subject of `jwt`, a token that verifies under `secret`, where it
    /// was issued less than fifteen minutes ago. The check reads the clock.
    pub fn verify_jwt(secret: &str, jwt: &str) -> (r: Option<String>)
        requires
            hs256_claims(secret@, jwt@) is Some,
        ensures
            exists|now: Timestamp| #[trigger]
                same_text(r, fresh_subject(hs256_claims(secret@, jwt@)->0, now)),
    {
        match jwt_verify(secret, jwt) {
            Ok(claims) => {
                let now = utc_now();
                let r = JWTUtil::verify_jwt_at(&claims, now);
                assert(same_text(r, fresh_subject(hs256_claims(secret@, jwt@)->0, now)));
                r
            },
            Err(_) => None,
        }
    }

    /// The subject of `jwt` where it verifies under `secret` and was issued
    /// less than fifteen minutes ago: `verify_jwt` once the signature is
    /// checked, and `None` for a token that does not verify.
    pub fn verify_token(secret: &str, jwt: &str) -> (r: Option<String>)
        ensures
            hs256_claims(secret@, jwt@) is None ==> r is None,
            hs256_claims(secret@, jwt@) matches Some(claims) ==> exists|now: Timestamp| #[trigger]
                same_text(r, fresh_subject(claims, now)),
    {
        match jwt_verify(secret, jwt) {
            Err(_) => None,
            Ok(_) => JWTUtil::verify_jwt(secret, jwt),
        }
    }
}

} // verus!
