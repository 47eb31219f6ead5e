use stratosphere::time::{current_time, DAY_SECS, SESSION_LIFETIME_SECS, TOKEN_LIFETIME_SECS};
use stratosphere::token::{gen_random, ACCESS_TOKEN_LEN, REFRESH_TOKEN_LEN};
use stratosphere::{Auth, AuthRefresh, AuthToken, SessionManager, SessionStore, StratError};

const NOW: i64 = 1_700_000_000;

fn s(x: &str) -> String {
    x.to_string()
}

fn tok(c: char, n: usize) -> String {
    std::iter::repeat(c).take(n).collect()
}

fn manager_with(rec: Auth) -> SessionManager {
    let mut store = SessionStore::new();
    assert!(store.upsert(rec).is_ok());
    SessionManager::new(store)
}

#[test]
fn created_session_tokens_are_usable() {
    let mut m = SessionManager::new(SessionStore::new());
    let a = m.create_session(s("owner-1")).unwrap();
    let token = a.get_token();
    let refresh = a.get_refresh();
    assert_eq!(token.len(), 25);
    assert_eq!(refresh.len(), 33);
    assert_ne!(token, refresh);
    assert!(token.chars().all(|c| c.is_ascii_alphanumeric()));
    assert!(refresh.chars().all(|c| c.is_ascii_alphanumeric()));
    assert_eq!(a.get_expiry() - a.get_created(), TOKEN_LIFETIME_SECS);
    assert_eq!(m.validate_access_token(&token).unwrap(), "owner-1");
    assert!(AuthRefresh::new(refresh.clone()).is_valid(m.store()));
    assert!(AuthToken::new(token.clone()).is_valid(m.store()));
    let rotated = m.refresh_session(&refresh).unwrap();
    assert_eq!(rotated.get_refresh(), refresh);
}

#[test]
fn validation_is_repeatable() {
    let mut m = SessionManager::new(SessionStore::new());
    let a = m.create_session_at(s("u7"), tok('a', 25), tok('b', 33), NOW).unwrap();
    let first = m.validate_access_token_at(&a.get_token(), NOW + 10).unwrap();
    let second = m.validate_access_token_at(&a.get_token(), NOW + 20).unwrap();
    assert_eq!(first, "u7");
    assert_eq!(first, second);
    assert_eq!(m.store().len(), 1);
    let stored = m.store().find_by_access_token(&tok('a', 25)).unwrap();
    assert_eq!(stored.get_expiry(), NOW + TOKEN_LIFETIME_SECS);
    assert_eq!(stored.get_created(), NOW);
}

#[test]
fn rotation_replaces_access_token_and_extends_expiry() {
    let mut m = SessionManager::new(SessionStore::new());
    m.create_session_at(s("u1"), tok('a', 25), tok('b', 33), NOW).unwrap();
    let later = NOW + 3 * DAY_SECS;
    let r = m.refresh_session_at(&tok('b', 33), tok('c', 25), later).unwrap();
    assert_eq!(r.get_token(), tok('c', 25));
    assert_eq!(r.get_refresh(), tok('b', 33));
    assert_eq!(r.get_owner(), "u1");
    assert_eq!(r.get_created(), NOW);
    assert_eq!(r.get_expiry(), later + TOKEN_LIFETIME_SECS);
    assert!(r.get_expiry() > NOW + TOKEN_LIFETIME_SECS);
    assert_eq!(m.store().len(), 1);
}

#[test]
fn expiry_one_second_ago_is_token_expired() {
    let now = current_time();
    let rec = Auth::from_parts(tok('a', 25), tok('b', 33), s("u1"), now - 1, now - DAY_SECS);
    let m = manager_with(rec);
    assert!(matches!(m.validate_access_token_at(&tok('a', 25), now), Err(StratError::TokenExpired)));
    assert!(matches!(m.validate_access_token(&tok('a', 25)), Err(StratError::TokenExpired)));
}

#[test]
fn session_older_than_fifty_days_is_auth_expired() {
    let now = current_time();
    let rec = Auth::from_parts(tok('a', 25), tok('b', 33), s("u1"), now + DAY_SECS, now - 51 * DAY_SECS);
    let mut m = manager_with(rec);
    assert!(matches!(m.validate_access_token(&tok('a', 25)), Err(StratError::AuthExpired)));
    assert!(matches!(m.refresh_session(&tok('b', 33)), Err(StratError::AuthExpired)));
    assert!(m.store().find_by_refresh_token(&tok('b', 33)).is_none());
    assert!(matches!(m.refresh_session(&tok('b', 33)), Err(StratError::UnknownRefresh)));
    assert_eq!(m.store().len(), 0);
}

#[test]
fn short_expired_session_is_kept() {
    let rec = Auth::from_parts(tok('a', 25), tok('b', 33), s("u1"), NOW - 1, NOW - DAY_SECS);
    let mut m = manager_with(rec);
    assert!(matches!(m.refresh_session_at(&tok('b', 33), tok('c', 25), NOW), Err(StratError::TokenExpired)));
    let kept = m.store().find_by_refresh_token(&tok('b', 33)).unwrap();
    assert_eq!(kept.get_token(), tok('a', 25));
    assert_eq!(kept.get_expiry(), NOW - 1);
}

#[test]
fn expired_session_cannot_be_refreshed() {
    let rec = Auth::from_parts(tok('a', 25), tok('b', 33), s("u1"), NOW - 1, NOW - DAY_SECS);
    let mut m = manager_with(rec);
    assert!(matches!(m.refresh_session_at(&tok('b', 33), tok('c', 25), NOW), Err(StratError::TokenExpired)));
    assert!(m.store().find_by_access_token(&tok('c', 25)).is_none());
}

#[test]
fn unknown_tokens_are_refused() {
    let mut m = SessionManager::new(SessionStore::new());
    m.create_session_at(s("u1"), tok('a', 25), tok('b', 33), NOW).unwrap();
    assert!(matches!(m.validate_access_token_at(&tok('z', 25), NOW), Err(StratError::UnknownToken)));
    assert!(matches!(m.refresh_session_at(&tok('z', 33), tok('c', 25), NOW), Err(StratError::UnknownRefresh)));
    assert!(matches!(Auth::get_by_token(m.store(), tok('z', 25)), Err(StratError::UnknownToken)));
    assert!(matches!(Auth::get_by_refresh(m.store(), tok('z', 33)), Err(StratError::UnknownRefresh)));
    assert!(!AuthToken::new(tok('z', 25)).is_valid(m.store()));
    assert!(!AuthRefresh::new(tok('z', 33)).is_valid(m.store()));
}

#[test]
fn last_of_two_refreshes_wins() {
    let mut m = SessionManager::new(SessionStore::new());
    m.create_session_at(s("u1"), tok('a', 25), tok('b', 33), NOW).unwrap();
    m.refresh_session_at(&tok('b', 33), tok('c', 25), NOW + 5).unwrap();
    m.refresh_session_at(&tok('b', 33), tok('d', 25), NOW + 9).unwrap();
    assert_eq!(m.store().len(), 1);
    let r = m.store().find_by_refresh_token(&tok('b', 33)).unwrap();
    assert_eq!(r.get_token(), tok('d', 25));
    assert_eq!(r.get_expiry(), NOW + 9 + TOKEN_LIFETIME_SECS);
    assert!(matches!(m.validate_access_token_at(&tok('c', 25), NOW + 10), Err(StratError::UnknownToken)));
    assert_eq!(m.validate_access_token_at(&tok('d', 25), NOW + 10).unwrap(), "u1");
}

#[test]
fn login_validate_refresh_scenario() {
    let mut m = SessionManager::new(SessionStore::new());
    let a = m.create_session(s("u1")).unwrap();
    let old_token = a.get_token();
    assert_eq!(old_token.len(), 25);
    assert_eq!(a.get_refresh().len(), 33);
    assert_eq!(m.validate_access_token(&old_token).unwrap(), "u1");
    let r = m.refresh_session(&a.get_refresh()).unwrap();
    assert_ne!(r.get_token(), old_token);
    assert!(matches!(m.validate_access_token(&old_token), Err(StratError::UnknownToken)));
    assert_eq!(m.validate_access_token(&r.get_token()).unwrap(), "u1");
    assert_eq!(m.store().len(), 1);
}

#[test]
fn taken_access_token_is_unique_exists() {
    let mut m = SessionManager::new(SessionStore::new());
    m.create_session_at(s("u1"), tok('a', 25), tok('b', 33), NOW).unwrap();
    assert!(matches!(m.create_session_at(s("u2"), tok('a', 25), tok('e', 33), NOW), Err(StratError::UniqueExists)));
    m.create_session_at(s("u2"), tok('c', 25), tok('e', 33), NOW).unwrap();
    assert!(matches!(m.refresh_session_at(&tok('e', 33), tok('a', 25), NOW), Err(StratError::UniqueExists)));
    assert_eq!(m.store().len(), 2);
    assert_eq!(m.validate_access_token_at(&tok('c', 25), NOW).unwrap(), "u2");
}

#[test]
fn creating_with_existing_refresh_token_overwrites() {
    let mut m = SessionManager::new(SessionStore::new());
    m.create_session_at(s("u1"), tok('a', 25), tok('b', 33), NOW).unwrap();
    m.create_session_at(s("u1"), tok('c', 25), tok('b', 33), NOW + 60).unwrap();
    assert_eq!(m.store().len(), 1);
    assert!(matches!(m.validate_access_token_at(&tok('a', 25), NOW + 60), Err(StratError::UnknownToken)));
    assert_eq!(m.validate_access_token_at(&tok('c', 25), NOW + 60).unwrap(), "u1");
}

#[test]
fn revoked_session_is_gone() {
    let mut m = SessionManager::new(SessionStore::new());
    m.create_session_at(s("u1"), tok('a', 25), tok('b', 33), NOW).unwrap();
    m.create_session_at(s("u2"), tok('c', 25), tok('d', 33), NOW).unwrap();
    assert!(m.revoke_session(&tok('b', 33)));
    assert!(!m.revoke_session(&tok('b', 33)));
    assert_eq!(m.store().len(), 1);
    assert!(matches!(m.validate_access_token_at(&tok('a', 25), NOW), Err(StratError::UnknownToken)));
    assert!(matches!(m.refresh_session_at(&tok('b', 33), tok('e', 25), NOW), Err(StratError::UnknownRefresh)));
    assert_eq!(m.validate_access_token_at(&tok('c', 25), NOW).unwrap(), "u2");
}

#[test]
fn expiry_boundaries() {
    let rec = Auth::from_parts(tok('a', 25), tok('b', 33), s("u1"), NOW, NOW - 10);
    assert!(rec.expired_at(NOW).is_none());
    assert!(matches!(rec.expired_at(NOW + 1), Some(StratError::TokenExpired)));
    let old = Auth::from_parts(tok('a', 25), tok('b', 33), s("u1"), NOW + 100 * DAY_SECS, NOW);
    assert!(old.expired_at(NOW + SESSION_LIFETIME_SECS).is_none());
    assert!(matches!(old.expired_at(NOW + SESSION_LIFETIME_SECS + 1), Some(StratError::AuthExpired)));
    assert_eq!(SESSION_LIFETIME_SECS, 50 * DAY_SECS);
    assert_eq!(TOKEN_LIFETIME_SECS, 7 * DAY_SECS);
}

#[test]
fn new_auth_is_live() {
    let a = Auth::new(s("u9"));
    assert_eq!(a.get_owner(), "u9");
    assert_eq!(a.get_token().len(), ACCESS_TOKEN_LEN);
    assert_eq!(a.get_refresh().len(), REFRESH_TOKEN_LEN);
    assert_eq!(a.get_expiry(), a.get_created() + TOKEN_LIFETIME_SECS);
    assert!(a.has_expired().is_none());
    let mut store = SessionStore::new();
    assert!(a.save_auth(&mut store).is_none());
    let found = Auth::get_by_token(&store, a.get_token()).unwrap();
    assert_eq!(found.get_refresh(), a.get_refresh());
    let rotated = a.refresh(&mut store).unwrap();
    assert_ne!(rotated.get_token(), a.get_token());
    assert!(AuthToken::new(rotated.get_token()).to_auth(&store).is_ok());
    assert!(matches!(AuthToken::new(a.get_token()).to_auth(&store), Err(StratError::UnknownToken)));
}

#[test]
fn random_tokens_differ() {
    let x = gen_random(40);
    let y = gen_random(40);
    assert_eq!(x.len(), 40);
    assert!(x.chars().all(|c| c.is_ascii_alphanumeric()));
    assert_ne!(x, y);
    assert_eq!(gen_random(0), "");
}

#[test]
fn clock_reads_the_present() {
    let t = current_time();
    assert!(t > 1_600_000_000);
    assert!(t < 10_000_000_000);
}
