use netron_chat::auth::{redeem_outcome, AuthError, TokenStore, VerificationToken, SESSION_LIFETIME_MS};
use netron_chat::email::EmailAddress;
use netron_chat::session::{find_user, SessionStore, SurrealAdapter, User};
use netron_chat::theme::Theme;

fn user(id: &str, name: &str, email: &str) -> User {
    User {
        id: id.to_string(),
        name: name.to_string(),
        email: EmailAddress(email.to_string()),
        email_verified: None,
        image: None,
        superadmin: None,
        theme: Theme::System,
    }
}

#[test]
fn token_redeemed_before_expiry_succeeds_once() {
    let mut store = TokenStore::new();
    let t = store.create("a@example.com".to_string(), 1_000);
    assert_eq!(t.token.len(), 36);
    let first = store.redeem("a@example.com", &t.token, 999).unwrap();
    assert_eq!(first.identifier, "a@example.com");
    assert_eq!(first.token, t.token);
    assert_eq!(first.expires, 1_000);
    let second = store.redeem("a@example.com", &t.token, 999);
    assert_eq!(second.unwrap_err(), AuthError::NotFound);
    assert_eq!(store.len(), 0);
}

#[test]
fn token_redeemed_at_expiry_instant_succeeds() {
    let mut store = TokenStore::new();
    let t = store.create("a@example.com".to_string(), 1_000);
    assert!(store.redeem("a@example.com", &t.token, 1_000).is_ok());
}

#[test]
fn expired_token_is_consumed() {
    let mut store = TokenStore::new();
    let t = store.create("a@example.com".to_string(), 1_000);
    let first = store.redeem("a@example.com", &t.token, 1_001);
    assert_eq!(first.unwrap_err(), AuthError::Expired);
    let second = store.redeem("a@example.com", &t.token, 0);
    assert_eq!(second.unwrap_err(), AuthError::NotFound);
}

#[test]
fn wrong_pair_leaves_tokens_alone() {
    let mut store = TokenStore::new();
    let t = store.create("a@example.com".to_string(), 1_000);
    assert_eq!(store.redeem("b@example.com", &t.token, 0).unwrap_err(), AuthError::NotFound);
    assert_eq!(store.redeem("a@example.com", "nope", 0).unwrap_err(), AuthError::NotFound);
    assert_eq!(store.len(), 1);
}

#[test]
fn several_tokens_per_identifier_are_independent() {
    let mut store = TokenStore::new();
    let t1 = store.create("a@example.com".to_string(), 1_000);
    let t2 = store.create("a@example.com".to_string(), 2_000);
    assert_ne!(t1.token, t2.token);
    assert_eq!(store.redeem("a@example.com", &t2.token, 1_500).unwrap().expires, 2_000);
    assert_eq!(store.redeem("a@example.com", &t1.token, 500).unwrap().expires, 1_000);
}

#[test]
fn redeem_outcome_covers_each_case() {
    assert_eq!(redeem_outcome(None, 5).unwrap_err(), AuthError::NotFound);
    let t = VerificationToken { identifier: "x".to_string(), token: "y".to_string(), expires: 4 };
    assert_eq!(redeem_outcome(Some(t), 5).unwrap_err(), AuthError::Expired);
    let t = VerificationToken { identifier: "x".to_string(), token: "y".to_string(), expires: 5 };
    assert_eq!(redeem_outcome(Some(t), 5).unwrap().token, "y");
}

#[test]
fn session_lifecycle() {
    let mut sessions = SessionStore::new();
    let s = sessions.create("user:1".to_string(), 10);
    assert_eq!(s.expires, 10 + 31_536_000_000);
    assert_eq!(SESSION_LIFETIME_MS, 365 * 24 * 60 * 60 * 1000);
    assert_eq!(s.session_token.len(), 36);
    assert_eq!(sessions.authenticate(&s.session_token, 11).unwrap().user_id, "user:1");
    assert_eq!(sessions.authenticate("missing", 11).unwrap_err(), AuthError::Unauthenticated);
    assert_eq!(
        sessions.authenticate(&s.session_token, s.expires + 1).unwrap_err(),
        AuthError::Unauthenticated
    );
    assert_eq!(sessions.delete(&s.session_token).unwrap().user_id, "user:1");
    assert_eq!(sessions.delete(&s.session_token).unwrap_err(), AuthError::Unauthenticated);
    assert_eq!(sessions.authenticate(&s.session_token, 11).unwrap_err(), AuthError::Unauthenticated);
}

#[test]
fn sign_in_exchanges_token_for_session() {
    let mut store = SurrealAdapter {
        users: vec![user("user:1", "Ada", "ada@example.com"), user("user:2", "Bo", "bo@example.com")],
        tokens: TokenStore::new(),
        sessions: SessionStore::new(),
    };
    let t = store.tokens.create("bo@example.com".to_string(), 100);
    let s = store.sign_in("bo@example.com", &t.token, 50).unwrap();
    assert_eq!(s.user_id, "user:2");
    assert_eq!(store.user_for_session(&s.session_token, 60).unwrap().name, "Bo");
    assert_eq!(store.sign_in("bo@example.com", &t.token, 50).unwrap_err(), AuthError::NotFound);
    assert_eq!(store.user_for_session("unknown", 60).unwrap_err(), AuthError::Unauthenticated);
}

#[test]
fn sign_in_for_unknown_user_is_not_found() {
    let mut store = SurrealAdapter { users: vec![], tokens: TokenStore::new(), sessions: SessionStore::new() };
    let t = store.tokens.create("ghost@example.com".to_string(), 100);
    assert_eq!(store.sign_in("ghost@example.com", &t.token, 50).unwrap_err(), AuthError::NotFound);
    assert_eq!(store.tokens.len(), 0);
}

#[test]
fn users_are_found_by_id_and_address() {
    let users = vec![user("user:1", "Ada", "ada@example.com")];
    assert_eq!(find_user(&users, "user:1", false).unwrap().name, "Ada");
    assert_eq!(find_user(&users, "ada@example.com", true).unwrap().id, "user:1");
    assert_eq!(find_user(&users, "ada@example.com", false).unwrap_err(), AuthError::NotFound);
    let mut admin = user("user:9", "Root", "root@example.com");
    assert_eq!(admin.is_super_admin().unwrap_err(), AuthError::Unauthenticated);
    admin.superadmin = Some(true);
    assert_eq!(admin.is_super_admin(), Ok(true));
}

#[test]
fn test_adapter() {
    let testname = "test_user";
    let mut adapter = SurrealAdapter::new();
    let user_to_create = user("user:test", testname, "test_user@test.com");
    let newuser = adapter.create_user(user_to_create.copy()).unwrap();
    println!("Created User: {:?}", newuser);
    let should_error = adapter.create_user(user_to_create);
    assert!(should_error.is_err(), "Should not create user with same email");
    assert_eq!(should_error.unwrap_err(), AuthError::Conflict);

    let token = adapter.create_verification_token(newuser.email.to_string(), 1_000);
    let checked = adapter.use_verification_token(&newuser.email.to_string(), &token.token, 10).unwrap();
    assert_eq!(checked.identifier, newuser.email.to_string());
    assert_eq!(checked.token, token.token);

    let session = adapter.create_session(newuser.id.clone(), 10);
    let found = adapter.get_user(&session.user_id).unwrap();
    assert_eq!(found.id, newuser.id);
    assert_eq!(adapter.delete_session(&session.session_token).unwrap().user_id, newuser.id);
    assert_eq!(adapter.get_user("user:none").unwrap_err(), AuthError::NotFound);
}

#[test]
fn verification_token_lasts_one_hour() {
    let mut adapter = SurrealAdapter::new();
    let u = user("user:5", "Eve", "eve@example.com");
    let t = adapter.new_verification_token(&u, 1_000);
    assert_eq!(t.identifier, "eve@example.com");
    assert_eq!(t.expires, 1_000 + 3_600_000);
    assert!(adapter.use_verification_token("eve@example.com", &t.token, 3_601_001).is_err());
}

#[test]
fn session_update_moves_expiry() {
    let mut adapter = SurrealAdapter::new();
    let s = adapter.create_session("user:1".to_string(), 0);
    assert_eq!(adapter.sessions.authenticate(&s.session_token, s.expires + 10).unwrap_err(), AuthError::Unauthenticated);
    let renewed = adapter.update_session(&s.session_token, s.expires + 100).unwrap();
    assert_eq!(renewed.expires, s.expires + 100);
    assert_eq!(renewed.session_token, s.session_token);
    assert!(adapter.sessions.authenticate(&s.session_token, s.expires + 10).is_ok());
    assert_eq!(adapter.update_session("missing", 5).unwrap_err(), AuthError::Unauthenticated);
}
