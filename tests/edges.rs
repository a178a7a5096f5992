use greenpoll::error::{ErrorCategory, ServiceError};
use greenpoll::services::password_reset_service::{create_password_reset, get_password_reset, get_password_reset_for_email};
use greenpoll::services::poll_service::{create_poll, delete_poll};
use greenpoll::services::poll_option_service::{create_poll_option, get_poll_option_poll};
use greenpoll::services::session_service::{delete_old_user_sessions, delete_user_sessions, get_user_sessions};
use greenpoll::services::user_service::{create_user, delete_user, get_user, login, set_email, set_verified, user_exists};
use greenpoll::services::verify_service::{delete_verification, get_verification, get_verification_for_email, verification_exists};
use greenpoll::store::Store;

const NOW: u64 = 1_700_000_000;

fn s(x: &str) -> String {
    x.to_string()
}

#[test]
fn missing_tokens_are_reported() {
    let mut db = Store::new(4);
    assert_eq!(get_verification(&db, &s("nope"), NOW).unwrap_err(), ServiceError::VerificationNotFound);
    assert_eq!(get_password_reset(&db, &s("nope"), NOW).unwrap_err(), ServiceError::PasswordResetNotFound);
    assert_eq!(ServiceError::VerificationNotFound.category(), ErrorCategory::NotFound);
    create_password_reset(&mut db, s("a@x.com"), s("R"), NOW).unwrap();
    assert_eq!(get_password_reset_for_email(&db, &s("a@x.com"), NOW).unwrap().id, "R");
    assert_eq!(get_verification_for_email(&db, &s("a@x.com"), NOW).unwrap_err(), ServiceError::VerificationNotFound);
}

#[test]
fn deleting_a_verification() {
    let mut db = Store::new(4);
    greenpoll::services::verify_service::create_verification(&mut db, s("a@x.com"), s("V"), NOW).unwrap();
    assert_eq!(get_verification(&db, &s("V"), NOW).unwrap().email, "a@x.com");
    delete_verification(&mut db, &s("V"), NOW);
    assert!(!verification_exists(&db, &s("V"), NOW));
}

#[test]
fn exhausted_ids_are_reported() {
    let mut db = Store::new(4);
    db.next_poll_id = i32::MAX;
    let r = create_poll(&mut db, 1, s("T"), s(""), NOW);
    assert_eq!(r.unwrap_err(), ServiceError::IdsExhausted);
    assert_eq!(db.polls.len(), 0);
    db.next_user_id = i32::MAX;
    let r = create_user(&mut db, s("alice"), s("alice@x.com"), s("password1"), NOW);
    assert_eq!(r.unwrap_err(), ServiceError::IdsExhausted);
    assert_eq!(db.users.len(), 0);
}

#[test]
fn changing_the_email_address() {
    let mut db = Store::new(4);
    let a = create_user(&mut db, s("alice"), s("alice@x.com"), s("password1"), NOW).unwrap();
    create_user(&mut db, s("bobby"), s("bobby@x.com"), s("password1"), NOW).unwrap();
    assert_eq!(set_email(&mut db, a.id, s("bobby@x.com"), NOW), Err(ServiceError::EmailInUse));
    assert_eq!(set_email(&mut db, a.id, s("a@x"), NOW), Err(ServiceError::EmailLength));
    set_email(&mut db, a.id, s("alice@y.com"), NOW).unwrap();
    assert_eq!(get_user(&db, a.id, NOW).unwrap().email, "alice@y.com");
    assert!(login(&mut db, &s("alice@y.com"), &s("password1"), s("S"), NOW).is_ok());
}

#[test]
fn deleting_an_account() {
    let mut db = Store::new(4);
    let a = create_user(&mut db, s("alice"), s("alice@x.com"), s("password1"), NOW).unwrap();
    set_verified(&mut db, a.id, true, NOW);
    assert!(get_user(&db, a.id, NOW).unwrap().verified);
    delete_user(&mut db, a.id, NOW);
    assert!(!user_exists(&db, a.id, NOW));
    assert_eq!(get_user(&db, a.id, NOW).unwrap_err(), ServiceError::UserNotFound);
}

#[test]
fn session_cleanup_by_user() {
    let mut db = Store::new(4);
    for sid in ["a", "b", "c"] {
        greenpoll::services::session_service::create_session(&mut db, 3, s(sid), NOW).unwrap();
    }
    delete_old_user_sessions(&mut db, 3);
    assert_eq!(get_user_sessions(&db, 3).len(), 3);
    delete_user_sessions(&mut db, 3);
    assert_eq!(get_user_sessions(&db, 3).len(), 0);
}

#[test]
fn options_go_with_their_poll() {
    let mut db = Store::new(4);
    let p = create_poll(&mut db, 1, s("T"), s(""), NOW).unwrap();
    let o = create_poll_option(&mut db, p.id, s("x")).unwrap();
    assert_eq!(get_poll_option_poll(&db, o.id).unwrap().id, p.id);
    delete_poll(&mut db, p.id);
    assert_eq!(get_poll_option_poll(&db, o.id).unwrap_err(), ServiceError::PollOptionNotFound);
}

#[test]
fn unknown_address_is_refused_without_a_session() {
    let mut db = Store::new(4);
    let r = login(&mut db, &s("nobody@x.com"), &s("password1"), s("S"), NOW);
    assert_eq!(r.unwrap_err(), ServiceError::InvalidLogin);
    assert_eq!(db.sessions.len(), 0);
}
