use dockerman::auth::{bearer_token, Claims, JwtManager, TOKEN_LIFETIME_SECS};
use dockerman::config::Initializer;
use dockerman::error::AppError;
use dockerman::user::UserManager;

#[test]
fn server_id_is_a_hyphenated_uuid() {
    let j = JwtManager::new();
    assert_eq!(j.get_server_id().len(), 36);
    assert_eq!(j.get_server_id().matches('-').count(), 4);
}

#[test]
fn claims_expire_a_day_after_issue() {
    let j = JwtManager::new();
    let c = j.claims_at("a@b.c", 1000);
    assert_eq!(c.sub, "a@b.c");
    assert_eq!(c.exp, 1000 + 86400);
    assert_eq!(TOKEN_LIFETIME_SECS, 86400);
    assert_eq!(c.server_id, j.get_server_id());
}

#[test]
fn created_claims_use_the_clock() {
    let j = JwtManager::new();
    let c = j.create_claims("x@y.z").unwrap();
    assert_eq!(c.sub, "x@y.z");
    assert_eq!(c.server_id, j.get_server_id());
    assert!(c.exp > 1_600_000_000 + 86400);
}

#[test]
fn regenerated_epoch_rejects_earlier_tokens() {
    let mut j = JwtManager::new();
    let before = j.claims_at("a@b.c", 10);
    assert!(j.verify_claims(before.clone()).is_ok());
    let old_id = j.get_server_id().to_string();
    j.regenerate_server_id();
    assert_ne!(j.get_server_id(), old_id);
    assert!(matches!(j.verify_claims(before), Err(AppError::Auth(_))));
    let after = j.claims_at("a@b.c", 20);
    let ok = j.verify_claims(after).unwrap();
    assert_eq!(ok.sub, "a@b.c");
}

#[test]
fn foreign_epoch_is_rejected() {
    let j = JwtManager::new();
    let c = Claims { sub: "a".to_string(), exp: 5, server_id: "other".to_string() };
    assert!(matches!(j.verify_claims(c), Err(AppError::Auth(_))));
}

#[test]
fn bearer_header_parsing() {
    assert_eq!(bearer_token("Bearer abc.def"), Some("abc.def"));
    assert_eq!(bearer_token("Bearer "), Some(""));
    assert_eq!(bearer_token("bearer abc"), None);
    assert_eq!(bearer_token("Basic abc"), None);
    assert_eq!(bearer_token("Bear"), None);
    assert_eq!(bearer_token(""), None);
}

#[test]
fn user_registration_and_login() {
    let mut u = UserManager::new("data/users.json", Vec::new());
    u.create_user("a@b.c", "secret").unwrap();
    let stored = u.list_users();
    assert_eq!(stored.len(), 1);
    assert_eq!(stored[0].email, "a@b.c");
    assert_ne!(stored[0].password, "secret");
    assert!(stored[0].password.starts_with("$2"));
    assert!(u.verify_user("a@b.c", "secret").unwrap());
    assert!(!u.verify_user("a@b.c", "wrong").unwrap());
    assert!(!u.verify_user("nobody@b.c", "secret").unwrap());
    assert!(matches!(u.create_user("a@b.c", "x"), Err(AppError::User(_))));
    assert_eq!(u.list_users().len(), 1);
    assert_eq!(u.find_user("a@b.c"), Some(0));
    assert_eq!(u.find_user("z"), None);
}

#[test]
fn password_change_gate() {
    let mut u = UserManager::new("data/users.json", Vec::new());
    u.create_user("a@b.c", "first").unwrap();
    let hash_before = u.list_users()[0].password.clone();
    let r = u.change_password("a@b.c", "wrong", "second");
    assert!(matches!(r, Err(AppError::Auth(_))));
    assert_eq!(u.list_users()[0].password, hash_before);
    assert!(!u.verify_user("a@b.c", "second").unwrap());
    u.change_password("a@b.c", "first", "second").unwrap();
    assert!(u.verify_user("a@b.c", "second").unwrap());
    assert!(!u.verify_user("a@b.c", "first").unwrap());
    let r = u.change_password("x@y.z", "first", "second");
    assert!(matches!(r, Err(AppError::NotFound(ref k)) if k == "x@y.z"));
}

#[test]
fn unreadable_stored_hash_is_a_bcrypt_error() {
    let users = vec![dockerman::user::User {
        email: "a@b.c".to_string(),
        password: "not-a-hash".to_string(),
    }];
    let u = UserManager::new("p", users);
    assert!(matches!(u.verify_user("a@b.c", "x"), Err(AppError::Bcrypt(_))));
    assert_eq!(u.file_path(), "p");
}

#[test]
fn initializer_keeps_directory() {
    let i = Initializer::new("./data");
    assert_eq!(i.data_dir(), "./data");
}

#[test]
fn checked_claims_reject_overflowing_expiry() {
    let j = JwtManager::new();
    let c = j.claims_checked("a@b.c", 7).unwrap();
    assert_eq!(c.exp, 86407);
    assert_eq!(c.sub, "a@b.c");
    assert!(j.claims_checked("a@b.c", i64::MAX - 86400).is_ok());
    assert!(matches!(j.claims_checked("a@b.c", i64::MAX - 86399), Err(AppError::Internal(_))));
    assert!(matches!(j.claims_checked("a@b.c", i64::MAX), Err(AppError::Internal(_))));
}

#[test]
fn regenerating_twice_changes_epoch_each_time() {
    let mut j = JwtManager::new();
    let a = j.get_server_id().to_string();
    j.regenerate_server_id();
    let b = j.get_server_id().to_string();
    j.regenerate_server_id();
    let c = j.get_server_id().to_string();
    assert_ne!(a, b);
    assert_ne!(b, c);
    assert_eq!(c.len(), 36);
}

#[test]
fn bearer_token_keeps_non_ascii_rest() {
    assert_eq!(bearer_token("Bearer \u{e9}t\u{e9}"), Some("\u{e9}t\u{e9}"));
}

#[test]
fn stored_hash_has_bcrypt_form() {
    let mut u = UserManager::new("data/users.json", Vec::new());
    u.create_user("a@b.c", "pw").unwrap();
    let h = u.list_users()[0].password.clone();
    assert_eq!(h.len(), 60);
    assert!(h.starts_with("$2b$12$"));
}

#[test]
fn change_with_unreadable_hash_is_a_bcrypt_error() {
    let users = vec![dockerman::user::User {
        email: "a@b.c".to_string(),
        password: "plain".to_string(),
    }];
    let mut u = UserManager::new("p", users);
    assert!(matches!(u.change_password("a@b.c", "plain", "new"), Err(AppError::Bcrypt(_))));
    assert_eq!(u.list_users()[0].password, "plain");
}

#[test]
fn login_issues_claims_only_for_the_right_password() {
    let mut u = UserManager::new("p", Vec::new());
    u.create_user("a@b.c", "pw").unwrap();
    let j = JwtManager::new();
    let c = dockerman::auth::login_claims(&u, &j, "a@b.c", "pw").unwrap();
    assert_eq!(c.sub, "a@b.c");
    assert_eq!(c.server_id, j.get_server_id());
    assert!(matches!(dockerman::auth::login_claims(&u, &j, "a@b.c", "no"), Err(AppError::Auth(_))));
    assert!(matches!(dockerman::auth::login_claims(&u, &j, "x@b.c", "pw"), Err(AppError::Auth(_))));
}

#[test]
fn password_change_invalidates_tokens() {
    let mut u = UserManager::new("p", Vec::new());
    u.create_user("a@b.c", "one").unwrap();
    let mut j = JwtManager::new();
    let before = j.claims_at("a@b.c", 100);
    let epoch = j.get_server_id().to_string();
    let r = dockerman::auth::change_password_and_invalidate(&mut u, &mut j, "a@b.c", "bad", "two");
    assert!(matches!(r, Err(AppError::Auth(_))));
    assert_eq!(j.get_server_id(), epoch);
    assert!(j.verify_claims(before.clone()).is_ok());
    dockerman::auth::change_password_and_invalidate(&mut u, &mut j, "a@b.c", "one", "two").unwrap();
    assert_ne!(j.get_server_id(), epoch);
    assert!(matches!(j.verify_claims(before), Err(AppError::Auth(_))));
    assert!(u.verify_user("a@b.c", "two").unwrap());
}
