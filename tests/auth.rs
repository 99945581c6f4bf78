use webauth::auth_session::{resolve_identity, AuthSession};
use webauth::backend::{check_password, Backend};
use webauth::error::AuthError;
use webauth::hasher::{hash_passwords, verify_password};
use webauth::session::{SessionStore, SESSION_TTL_SECS};
use webauth::store::UserStore;
use webauth::user::{Credentials, User};

fn creds(name: &str, password: &str) -> Credentials {
    Credentials::new(name.to_string(), password.to_string())
}

fn backend_with(users: &[(&str, &str)]) -> Backend {
    let mut backend = Backend::new(UserStore::new());
    for (name, password) in users {
        backend.register(&creds(name, password)).unwrap();
    }
    backend
}

#[test]
fn hash_then_verify_accepts() {
    let h = hash_passwords("correct horse").unwrap();
    assert!(h.starts_with("$argon2id$"));
    assert_ne!(h, "correct horse");
    assert!(verify_password(h.as_bytes(), "correct horse"));
}

#[test]
fn verify_rejects_other_password() {
    let h = hash_passwords("secret1").unwrap();
    assert!(!verify_password(h.as_bytes(), "secret2"));
    assert!(!verify_password(h.as_bytes(), ""));
}

#[test]
fn two_hashes_differ_and_both_verify() {
    let h1 = hash_passwords("same").unwrap();
    let h2 = hash_passwords("same").unwrap();
    assert_ne!(h1, h2);
    assert!(verify_password(h1.as_bytes(), "same"));
    assert!(verify_password(h2.as_bytes(), "same"));
}

#[test]
fn malformed_hash_verifies_false() {
    assert!(!verify_password(b"not a hash", "pw"));
    assert!(!verify_password(b"", "pw"));
    assert!(!verify_password(&[0xff, 0xfe, 0x24], "pw"));
}

#[test]
fn unknown_user_and_wrong_password_both_none() {
    let backend = backend_with(&[("alice", "secret1")]);
    assert!(backend.authenticate(creds("bob", "secret1")).is_none());
    assert!(backend.authenticate(creds("alice", "wrong")).is_none());
    let u = backend.authenticate(creds("alice", "secret1")).unwrap();
    assert_eq!(u.username, "alice");
    assert_eq!(u.id, 1);
}

#[test]
fn username_lookup_is_case_sensitive() {
    let backend = backend_with(&[("alice", "secret1")]);
    assert!(backend.authenticate(creds("Alice", "secret1")).is_none());
    assert!(backend.users().find_by_username("ALICE").is_none());
    assert!(backend.users().find_by_username("alice").is_some());
}

#[test]
fn check_password_on_fetched_row() {
    let h = hash_passwords("pw").unwrap();
    let row = User::new(7, "carol".to_string(), h.into_bytes());
    assert!(check_password(Some(row.clone()), "nope").is_none());
    assert!(check_password(None, "pw").is_none());
    let u = check_password(Some(row), "pw").unwrap();
    assert_eq!(u.id, 7);
}

#[test]
fn login_then_logout() {
    let backend = backend_with(&[("alice", "secret1")]);
    let mut sessions = SessionStore::new();
    let mut auth = AuthSession::anonymous();
    assert!(auth.current_user().is_none());
    auth.login(&backend, &mut sessions, creds("alice", "secret1"), 1_000).unwrap();
    let user = auth.current_user().unwrap();
    assert_eq!(user.username, "alice");
    let token = auth.token().unwrap();
    assert_eq!(sessions.len(), 1);

    let again = AuthSession::from_token(&backend, &mut sessions, Some(token.clone()), 2_000);
    assert_eq!(again.current_user().unwrap().id, user.id);

    auth.logout(&mut sessions);
    assert!(auth.current_user().is_none());
    assert!(auth.token().is_none());
    assert_eq!(sessions.len(), 0);
    let after = AuthSession::from_token(&backend, &mut sessions, Some(token), 2_001);
    assert!(after.current_user().is_none());
}

#[test]
fn login_with_wrong_password_fails() {
    let backend = backend_with(&[("alice", "secret1")]);
    let mut sessions = SessionStore::new();
    let mut auth = AuthSession::anonymous();
    let r = auth.login(&backend, &mut sessions, creds("alice", "secret2"), 10);
    assert_eq!(r, Err(AuthError::AuthenticationFailure));
    let r = auth.login(&backend, &mut sessions, creds("nobody", "secret1"), 10);
    assert_eq!(r, Err(AuthError::AuthenticationFailure));
    assert_eq!(sessions.len(), 0);
    assert!(auth.current_user().is_none());
}

#[test]
fn logout_without_session_is_fine() {
    let mut sessions = SessionStore::new();
    let mut auth = AuthSession::anonymous();
    auth.logout(&mut sessions);
    assert!(auth.current_user().is_none());
    sessions.destroy("no-such-token");
    assert_eq!(sessions.len(), 0);
}

#[test]
fn password_change_invalidates_session() {
    let mut backend = backend_with(&[("alice", "secret1")]);
    let mut sessions = SessionStore::new();
    let user = backend.get_user(&1).unwrap();
    let s = sessions.create(&user, 100).unwrap();
    assert_eq!(resolve_identity(&backend, &mut sessions, &s.token, 200).unwrap().id, 1);
    assert_eq!(backend.change_password(1, "secret9"), Ok(true));
    assert!(resolve_identity(&backend, &mut sessions, &s.token, 300).is_none());
    assert!(sessions.get(&s.token).is_none());
    assert_eq!(backend.change_password(42, "x"), Ok(false));
}

#[test]
fn session_of_deleted_user_resolves_to_none() {
    let backend = backend_with(&[("alice", "secret1")]);
    let mut sessions = SessionStore::new();
    let ghost_user = User::new(99, "ghost".to_string(), vec![1, 2, 3]);
    let s = sessions.create(&ghost_user, 0).unwrap();
    assert!(resolve_identity(&backend, &mut sessions, &s.token, 1).is_none());
    assert_eq!(sessions.len(), 0);
}

#[test]
fn reaper_removes_expired_session() {
    let user = User::new(1, "alice".to_string(), b"h".to_vec());
    let mut sessions = SessionStore::new();
    let now: i64 = 1_000_000;
    let old = sessions
        .create_with_token("old".to_string(), &user, now - 1 - SESSION_TTL_SECS)
        .unwrap();
    assert_eq!(old.expiry, now - 1);
    sessions.create_with_token("fresh".to_string(), &user, now).unwrap();
    assert_eq!(sessions.delete_expired(now), 1);
    assert!(sessions.get("old").is_none());
    assert!(sessions.validate("old", now).is_none());
    assert!(sessions.get("fresh").is_some());
    assert_eq!(sessions.len(), 1);
}

#[test]
fn reaper_keeps_session_expiring_now() {
    let user = User::new(1, "alice".to_string(), b"h".to_vec());
    let mut sessions = SessionStore::new();
    sessions.create_with_token("t".to_string(), &user, 0).unwrap();
    assert_eq!(sessions.delete_expired(SESSION_TTL_SECS), 0);
    assert_eq!(sessions.len(), 1);
    assert!(sessions.validate("t", SESSION_TTL_SECS).is_none());
}

#[test]
fn validate_slides_expiry() {
    let user = User::new(3, "dave".to_string(), b"hash".to_vec());
    let mut sessions = SessionStore::new();
    let s = sessions.create_with_token("tok".to_string(), &user, 1_000).unwrap();
    assert_eq!(s.expiry, 1_000 + 86_400);
    assert_eq!(s.user_id, 3);
    assert_eq!(s.auth_hash, b"hash".to_vec());
    let v = sessions.validate("tok", 50_000).unwrap();
    assert_eq!(v.expiry, 50_000 + 86_400);
    assert_eq!(sessions.get("tok").unwrap().expiry, 136_400);
    assert!(sessions.validate("missing", 50_000).is_none());
}

#[test]
fn duplicate_token_conflicts() {
    let user = User::new(1, "a".to_string(), vec![]);
    let mut sessions = SessionStore::new();
    sessions.create_with_token("t".to_string(), &user, 0).unwrap();
    let r = sessions.create_with_token("t".to_string(), &user, 5);
    assert_eq!(r.unwrap_err(), AuthError::Conflict);
    assert_eq!(sessions.len(), 1);
}

#[test]
fn random_tokens_are_distinct() {
    let user = User::new(1, "a".to_string(), vec![]);
    let mut sessions = SessionStore::new();
    let a = sessions.create(&user, 0).unwrap();
    let b = sessions.create(&user, 0).unwrap();
    assert_ne!(a.token, b.token);
    assert!(!a.token.is_empty());
}

#[test]
fn register_duplicate_conflicts_and_keeps_hash() {
    let mut backend = Backend::new(UserStore::new());
    assert_eq!(backend.register(&creds("alice", "secret1")), Ok(1));
    let before = backend.users().find_by_username("alice").unwrap().pw_hash;
    assert_eq!(backend.register(&creds("alice", "secret2")), Err(AuthError::Conflict));
    let after = backend.users().find_by_username("alice").unwrap().pw_hash;
    assert_eq!(before, after);
    assert!(backend.authenticate(creds("alice", "secret1")).is_some());
    assert!(backend.authenticate(creds("alice", "secret2")).is_none());
}

#[test]
fn second_of_two_registrations_conflicts() {
    let mut backend = Backend::new(UserStore::new());
    let first = backend.register(&creds("bob", "one"));
    let second = backend.register(&creds("bob", "two"));
    assert_eq!(first, Ok(1));
    assert_eq!(second, Err(AuthError::Conflict));
    assert_eq!(backend.users().len(), 1);
}

#[test]
fn register_empty_credentials_is_validation_error() {
    let mut backend = Backend::new(UserStore::new());
    assert_eq!(backend.register(&creds("", "pw")), Err(AuthError::Validation));
    assert_eq!(backend.register(&creds("eve", "")), Err(AuthError::Validation));
    assert_eq!(backend.users().len(), 0);
}

#[test]
fn store_assigns_increasing_ids() {
    let mut store = UserStore::new();
    assert_eq!(store.insert("a", vec![1]), Ok(1));
    assert_eq!(store.insert("b", vec![2]), Ok(2));
    assert_eq!(store.insert("a", vec![3]), Err(AuthError::Conflict));
    assert_eq!(store.find_by_id(2).unwrap().username, "b");
    assert!(store.find_by_id(3).is_none());
    assert!(store.set_password_hash(1, vec![9]));
    assert_eq!(store.find_by_id(1).unwrap().pw_hash, vec![9]);
    assert!(!store.set_password_hash(5, vec![9]));
}

#[test]
fn user_accessors() {
    let u = User::new(5, "x".to_string(), vec![7, 8]);
    assert_eq!(u.id(), 5);
    assert_eq!(u.session_auth_hash(), &[7, 8]);
    let d = u.duplicate();
    assert_eq!(d.username, "x");
    assert_eq!(d.pw_hash, vec![7, 8]);
}

#[test]
fn error_messages_are_generic() {
    assert_eq!(AuthError::AuthenticationFailure.message(), "invalid username or password");
    assert_eq!(AuthError::Conflict.message(), "username already taken");
    assert_eq!(AuthError::Store.message(), "storage failure");
    assert_eq!(AuthError::Hashing.message(), "internal error");
    assert_eq!(AuthError::Validation.message(), "invalid input");
}

#[test]
fn any_short_password_hashes() {
    for pw in ["", "p", "пароль-密码-🔑", &"x".repeat(1000)] {
        let h = hash_passwords(pw).unwrap();
        assert!(verify_password(h.as_bytes(), pw));
    }
}

#[test]
fn credentials_validation() {
    assert_eq!(creds("a", "b").validate_credentials(), Ok(()));
    assert_eq!(creds("", "b").validate_credentials(), Err(AuthError::Validation));
    assert_eq!(creds("a", "").validate_credentials(), Err(AuthError::Validation));
}

#[test]
fn login_on_empty_session_store_succeeds() {
    let backend = backend_with(&[("alice", "secret1")]);
    let mut sessions = SessionStore::new();
    let mut auth = AuthSession::anonymous();
    assert_eq!(auth.login(&backend, &mut sessions, creds("alice", "secret1"), 0), Ok(()));
    assert_eq!(sessions.len(), 1);
    let s = sessions.get(&auth.token().unwrap()).unwrap();
    assert_eq!(s.expiry, SESSION_TTL_SECS);
    assert_eq!(s.user_id, 1);
}
