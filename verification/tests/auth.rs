use hmac::{Hmac, Mac};
use jwt::SignWithKey;
use sha2::Sha256;
use std::collections::BTreeMap;
use tellonym::auth::{issue_tokens, login, refresh, refresh_at, register, register_with_hash};
use tellonym::error::TellonymError;
use tellonym::jwt_util::JWTUtil;
use tellonym::model::{Timestamp, User};
use tellonym::requests::LoginData;
use tellonym::user_guard::UserGuard;

const ACCESS: &str = "access-secret";
const REFRESH: &str = "refresh-secret";

fn stored_user(id: i32, hash: String) -> User {
    User {
        id,
        username: "alice".to_string(),
        password: hash,
        follower_count: 0,
        following_count: 0,
        bio: String::new(),
        twitch: String::new(),
        twitter: String::new(),
        youtube: String::new(),
        instagram: String::new(),
    }
}

fn data(username: &str, password: &str) -> LoginData {
    LoginData { username: username.to_string(), password: password.to_string() }
}

fn claims(pairs: &[(&str, &str)]) -> Vec<(String, String)> {
    pairs.iter().map(|(a, b)| (a.to_string(), b.to_string())).collect()
}

fn instant(text: &str) -> Timestamp {
    let d = chrono::DateTime::parse_from_rfc3339(text).unwrap();
    Timestamp { secs: d.timestamp(), nanos: d.timestamp_subsec_nanos() }
}

#[test]
fn register_stores_a_hash_that_logs_in() {
    let new_user = register(&data("alice", "hunter2")).ok().unwrap();
    assert_eq!(new_user.username, "alice");
    assert_ne!(new_user.password, "hunter2");
    assert!(new_user.password.starts_with("$2b$12$"));
    let user = stored_user(5, new_user.password);
    let (access, refresh_token) = login(ACCESS, REFRESH, &data("alice", "hunter2"), Some(&user)).ok().unwrap();
    let guard = UserGuard::from_authorization(ACCESS, Some(&format!("Bearer {}", access))).ok().unwrap();
    assert_eq!(guard.into_inner(), 5);
    let guard = UserGuard::from_authorization(REFRESH, Some(&refresh_token)).ok().unwrap();
    assert_eq!(guard.into_inner(), 5);
}

#[test]
fn wrong_password_is_an_invalid_login() {
    let hash = bcrypt::hash("hunter2", 4).unwrap();
    let user = stored_user(5, hash);
    assert!(matches!(login(ACCESS, REFRESH, &data("alice", "wrong"), Some(&user)), Err(TellonymError::InvalidLogin)));
}

#[test]
fn unreadable_hash_is_a_server_error() {
    let user = stored_user(5, "not a bcrypt hash".to_string());
    assert!(matches!(login(ACCESS, REFRESH, &data("alice", "x"), Some(&user)), Err(TellonymError::ServerError)));
}

#[test]
fn guard_refuses_missing_and_foreign_tokens() {
    assert!(matches!(UserGuard::from_authorization(ACCESS, None), Err(TellonymError::BadHeaders)));
    assert!(matches!(UserGuard::from_authorization(ACCESS, Some("Bearer nonsense")), Err(TellonymError::InvalidJWT)));
    let (access, _) = issue_tokens(ACCESS, REFRESH, 12);
    assert!(matches!(
        UserGuard::from_authorization(REFRESH, Some(&format!("Bearer {}", access))),
        Err(TellonymError::InvalidJWT)
    ));
    let named = JWTUtil::sign_jwt(ACCESS, "alice".to_string());
    assert!(matches!(UserGuard::from_authorization(ACCESS, Some(&named)), Err(TellonymError::InvalidJWT)));
}

#[test]
fn guard_expires_tokens_after_fifteen_minutes() {
    let token = JWTUtil::sign_jwt_at(ACCESS, "42".to_string(), "2022-11-24T12:00:00+00:00".to_string());
    let header = format!("Bearer {}", token);
    let early = UserGuard::authorize_at(ACCESS, Some(&header), instant("2022-11-24T12:14:59+00:00"));
    assert_eq!(early.ok().unwrap().into_inner(), 42);
    let late = UserGuard::authorize_at(ACCESS, Some(&header), instant("2022-11-24T12:15:00+00:00"));
    assert!(matches!(late, Err(TellonymError::InvalidJWT)));
}

#[test]
fn signed_token_is_the_hs256_token_of_the_claims() {
    let token = JWTUtil::sign_jwt_at("some-secret", "someone".to_string(), "2022-11-24T12:00:00+00:00".to_string());
    let key: Hmac<Sha256> = Hmac::new_from_slice(b"some-secret").unwrap();
    let mut map = BTreeMap::new();
    map.insert("sub", "someone");
    map.insert("iad", "2022-11-24T12:00:00+00:00");
    assert_eq!(token, map.sign_with_key(&key).unwrap());
}

#[test]
fn verify_jwt_at_checks_subject_and_age() {
    let now = instant("2022-11-24T12:10:00+01:00");
    let fresh = claims(&[("iad", "2022-11-24T11:00:00+00:00"), ("sub", "bob")]);
    assert_eq!(JWTUtil::verify_jwt_at(&fresh, now), Some("bob".to_string()));
    let stale = claims(&[("iad", "2022-11-24T10:55:00+00:00"), ("sub", "bob")]);
    assert_eq!(JWTUtil::verify_jwt_at(&stale, now), None);
    let no_subject = claims(&[("iad", "2022-11-24T11:00:00+00:00")]);
    assert_eq!(JWTUtil::verify_jwt_at(&no_subject, now), None);
    let no_time = claims(&[("sub", "bob")]);
    assert_eq!(JWTUtil::verify_jwt_at(&no_time, now), None);
    let bad_time = claims(&[("iad", "yesterday"), ("sub", "bob")]);
    assert_eq!(JWTUtil::verify_jwt_at(&bad_time, now), None);
}

#[test]
fn verify_jwt_reads_back_a_fresh_token() {
    let token = JWTUtil::sign_jwt(ACCESS, "carol".to_string());
    assert_eq!(JWTUtil::verify_jwt(ACCESS, &token), Some("carol".to_string()));
}

#[test]
fn refresh_exchanges_a_refresh_token() {
    assert!(matches!(refresh(REFRESH, ACCESS, None), Err(TellonymError::NoRefreshCookie)));
    assert!(matches!(refresh(REFRESH, ACCESS, Some("garbage")), Err(TellonymError::InvalidJWT)));
    let (access, refresh_token) = issue_tokens(ACCESS, REFRESH, -3);
    assert!(matches!(refresh(REFRESH, ACCESS, Some(&access)), Err(TellonymError::InvalidJWT)));
    let new_access = refresh(REFRESH, ACCESS, Some(&refresh_token)).ok().unwrap();
    let guard = UserGuard::from_authorization(ACCESS, Some(&new_access)).ok().unwrap();
    assert_eq!(guard.into_inner(), -3);
}

#[test]
fn refresh_at_checks_the_token_at_the_given_time() {
    let token = JWTUtil::sign_jwt_at(REFRESH, "17".to_string(), "2022-11-24T12:00:00+00:00".to_string());
    let fresh = refresh_at(REFRESH, ACCESS, Some(&token), instant("2022-11-24T12:14:59.999999999+00:00"));
    let access = fresh.ok().unwrap();
    let guard = UserGuard::authorize_at(ACCESS, Some(&access), Timestamp { secs: i64::MAX / 2, nanos: 0 });
    assert!(matches!(guard, Err(TellonymError::InvalidJWT)));
    let now = UserGuard::from_authorization(ACCESS, Some(&access)).ok().unwrap();
    assert_eq!(now.into_inner(), 17);
    let stale = refresh_at(REFRESH, ACCESS, Some(&token), instant("2022-11-24T12:15:00+00:00"));
    assert!(matches!(stale, Err(TellonymError::InvalidJWT)));
    assert!(matches!(refresh_at(REFRESH, ACCESS, None, instant("2022-11-24T12:00:00+00:00")), Err(TellonymError::NoRefreshCookie)));
    let named = JWTUtil::sign_jwt_at(REFRESH, "bob".to_string(), "2022-11-24T12:00:00+00:00".to_string());
    assert!(matches!(
        refresh_at(REFRESH, ACCESS, Some(&named), instant("2022-11-24T12:01:00+00:00")),
        Err(TellonymError::InvalidJWT)
    ));
}

#[test]
fn verify_jwt_gives_nothing_for_a_foreign_token() {
    let token = JWTUtil::sign_jwt(ACCESS, "carol".to_string());
    assert_eq!(JWTUtil::verify_token(REFRESH, &token), None);
    assert_eq!(JWTUtil::verify_token(ACCESS, "not.a.token"), None);
    assert_eq!(JWTUtil::verify_token(ACCESS, &token), Some("carol".to_string()));
}

#[test]
fn issue_times_read_back_as_the_same_instant() {
    for (secs, nanos) in [(0i64, 0u32), (1_669_291_200, 123_456_789), (-62_167_219_200, 0), (253_402_300_799, 999_999_999), (1_000_000_000, 500_000_000)] {
        let text = chrono::DateTime::from_timestamp(secs, nanos).unwrap().to_rfc3339();
        assert_eq!(instant(&text), Timestamp { secs, nanos }, "{}", text);
    }
}

#[test]
fn login_with_an_unknown_username_is_not_found() {
    assert!(matches!(login(ACCESS, REFRESH, &data("nobody", "pw"), None), Err(TellonymError::ResourceNotFound)));
}

#[test]
fn register_with_hash_stores_the_given_hash() {
    let stored = register_with_hash(&data("dora", "pw"), Some("$2b$12$abc".to_string())).ok().unwrap();
    assert_eq!((stored.username.as_str(), stored.password.as_str()), ("dora", "$2b$12$abc"));
    assert!(matches!(register_with_hash(&data("dora", "pw"), None), Err(TellonymError::ServerError)));
}
