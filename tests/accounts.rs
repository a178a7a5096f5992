use greenpoll::error::{ErrorCategory, ServiceError};
use greenpoll::routes::login_register_routes::{login, logout, logout_everywhere, register, LoginQuery, RegisterQuery};
use greenpoll::routes::password_reset_routes::{
    password_reset_exists, request_password_reset, reset_password, PasswordResetExistsQuery,
    RequestPasswordResetQuery, ResetPasswordQuery,
};
use greenpoll::routes::user_routes::{get_user_info, set_password, set_username, SetPasswordQuery, SetUsernameQuery};
use greenpoll::routes::verify_routes::{verify_account, VerifyAccountQuery};
use greenpoll::services::session_service::{create_session, get_session, get_user_by_session_id, get_user_sessions, session_exists};
use greenpoll::services::user_service::{create_user, get_user_by_email, get_user_by_username, prune_unverified_users, user_exists_for_username};
use greenpoll::services::verify_service::{create_verification, get_user_by_verification, verification_exists};
use greenpoll::store::{Store, MAX_USER_SESSIONS, UNVERIFIED_USER_LIFETIME, VERIFICATION_LIFETIME};
use greenpoll::util::ErrorJSON;

const NOW: u64 = 1_700_000_000;

fn s(x: &str) -> String {
    x.to_string()
}

fn store() -> Store {
    Store::new(4)
}

fn reg(db: &mut Store, name: &str, email: &str, password: &str, token: &str) -> Result<greenpoll::records::Verify, ServiceError> {
    register(
        db,
        RegisterQuery { username: s(name), email: s(email), password: s(password) },
        s(token),
        NOW,
    )
}

fn log_in(db: &mut Store, email: &str, password: &str, sid: &str) -> Result<greenpoll::records::Session, ServiceError> {
    login(db, LoginQuery { email: s(email), password: s(password) }, s(sid), NOW)
}

#[test]
fn register_then_verify_account_once() {
    let mut db = store();
    let v = reg(&mut db, "alice", "alice@x.com", "password1", "T").unwrap();
    assert_eq!(v.id, "T");
    assert_eq!(v.email, "alice@x.com");
    let u = get_user_by_email(&db, &s("alice@x.com"), NOW).unwrap();
    assert!(!u.verified);
    assert!(verify_account(&mut db, VerifyAccountQuery { verify_id: s("T") }, NOW).is_ok());
    let u = get_user_by_email(&db, &s("alice@x.com"), NOW).unwrap();
    assert!(u.verified);
    let again = verify_account(&mut db, VerifyAccountQuery { verify_id: s("T") }, NOW);
    assert_eq!(again, Err(ServiceError::InvalidVerifyId));
    assert_eq!(again.unwrap_err().category(), ErrorCategory::NotFound);
}

#[test]
fn second_registration_with_same_name_conflicts() {
    let mut db = store();
    reg(&mut db, "alice", "alice@x.com", "password1", "T1").unwrap();
    let r = reg(&mut db, "alice", "other@x.com", "another-password", "T2");
    assert_eq!(r.unwrap_err(), ServiceError::UsernameInUse);
    let r = reg(&mut db, "bobby", "alice@x.com", "password1", "T3");
    assert_eq!(r.unwrap_err(), ServiceError::EmailInUse);
    assert_eq!(ServiceError::EmailInUse.category(), ErrorCategory::Conflict);
}

#[test]
fn conflict_is_reported_whatever_the_password() {
    let mut db = store();
    reg(&mut db, "alice", "alice@x.com", "password1", "T1").unwrap();
    let r = reg(&mut db, "alice", "alice@x.com", "short", "T2");
    assert_eq!(r.unwrap_err(), ServiceError::UsernameInUse);
}

#[test]
fn registration_length_rules() {
    let mut db = store();
    assert_eq!(reg(&mut db, "al", "al@x.com", "password1", "A").unwrap_err(), ServiceError::UsernameLength);
    assert_eq!(reg(&mut db, &"a".repeat(64), "al@x.com", "password1", "A").unwrap_err(), ServiceError::UsernameLength);
    assert_eq!(reg(&mut db, "ali", "a@x.", "password1", "A").unwrap_err(), ServiceError::EmailLength);
    assert_eq!(reg(&mut db, "ali", "a@x.com", "passwor", "A").unwrap_err(), ServiceError::PasswordLength);
    assert_eq!(reg(&mut db, "ali", "a@x.com", &"p".repeat(256), "A").unwrap_err(), ServiceError::PasswordLength);
    assert!(reg(&mut db, "ali", "a@x.c", "password", "A").is_ok());
    assert!(reg(&mut db, &"b".repeat(63), &"e".repeat(63), &"p".repeat(255), "B").is_ok());
    assert_eq!(ServiceError::PasswordLength.category(), ErrorCategory::Validation);
}

#[test]
fn stored_password_is_a_hash() {
    let mut db = store();
    let u = create_user(&mut db, s("carol"), s("carol@x.com"), s("password1"), NOW).unwrap();
    assert_ne!(u.password, "password1");
    assert!(u.password.starts_with("$2"));
    assert_eq!(u.id, 1);
    assert!(!u.verified);
    assert_eq!(u.join_time, NOW);
}

#[test]
fn bad_hash_cost_fails_registration() {
    let mut db = Store::new(3);
    let r = create_user(&mut db, s("carol"), s("carol@x.com"), s("password1"), NOW);
    assert_eq!(r.unwrap_err(), ServiceError::HashFailed);
    assert_eq!(ServiceError::HashFailed.category(), ErrorCategory::Internal);
    assert!(!user_exists_for_username(&db, &s("carol"), NOW));
}

#[test]
fn login_hides_which_check_failed() {
    let mut db = store();
    reg(&mut db, "alice", "alice@x.com", "password1", "T").unwrap();
    let unknown = log_in(&mut db, "nobody@x.com", "password1", "S1").unwrap_err();
    let wrong = log_in(&mut db, "alice@x.com", "password2", "S2").unwrap_err();
    assert_eq!(unknown, ServiceError::InvalidLogin);
    assert_eq!(unknown, wrong);
    assert_eq!(unknown.message(), wrong.message());
    assert_eq!(unknown.message(), "Invalid login");
    assert_eq!(ErrorJSON::from_error(wrong).error, "Invalid login");
    assert!(!session_exists(&db, &s("S1")));
    assert!(!session_exists(&db, &s("S2")));
}

#[test]
fn login_opens_a_session() {
    let mut db = store();
    reg(&mut db, "alice", "alice@x.com", "password1", "T").unwrap();
    let sess = log_in(&mut db, "alice@x.com", "password1", "S1").unwrap();
    assert_eq!(sess.id, "S1");
    assert_eq!(sess.create_time, NOW);
    let u = get_user_by_session_id(&db, &s("S1"), NOW).unwrap();
    assert_eq!(u.username, "alice");
    assert_eq!(get_session(&db, &s("S1")).unwrap().user_id, u.id);
}

#[test]
fn five_logins_keep_the_four_latest_sessions() {
    let mut db = store();
    reg(&mut db, "alice", "alice@x.com", "password1", "T").unwrap();
    for sid in ["S1", "S2", "S3", "S4", "S5"] {
        log_in(&mut db, "alice@x.com", "password1", sid).unwrap();
    }
    let uid = get_user_by_username(&db, &s("alice"), NOW).unwrap().id;
    let kept: Vec<String> = get_user_sessions(&db, uid).into_iter().map(|x| x.id).collect();
    assert_eq!(kept.len(), MAX_USER_SESSIONS);
    assert_eq!(kept, vec![s("S2"), s("S3"), s("S4"), s("S5")]);
    assert_eq!(get_user_by_session_id(&db, &s("S1"), NOW).unwrap_err(), ServiceError::InvalidSession);
    assert_eq!(get_session(&db, &s("S1")).unwrap_err(), ServiceError::SessionNotFound);
}

#[test]
fn sessions_of_other_users_are_not_evicted() {
    let mut db = store();
    create_session(&mut db, 7, s("other"), NOW).unwrap();
    for (i, sid) in ["a", "b", "c", "d", "e", "f"].iter().enumerate() {
        create_session(&mut db, 1, s(sid), NOW + i as u64).unwrap();
    }
    assert_eq!(get_user_sessions(&db, 7).len(), 1);
    let kept: Vec<String> = get_user_sessions(&db, 1).into_iter().map(|x| x.id).collect();
    assert_eq!(kept, vec![s("c"), s("d"), s("e"), s("f")]);
}

#[test]
fn duplicate_session_id_is_refused() {
    let mut db = store();
    create_session(&mut db, 1, s("same"), NOW).unwrap();
    assert_eq!(create_session(&mut db, 2, s("same"), NOW).unwrap_err(), ServiceError::DuplicateToken);
    assert_eq!(get_user_sessions(&db, 2).len(), 0);
}

#[test]
fn logout_and_logout_everywhere() {
    let mut db = store();
    reg(&mut db, "alice", "alice@x.com", "password1", "T").unwrap();
    log_in(&mut db, "alice@x.com", "password1", "S1").unwrap();
    log_in(&mut db, "alice@x.com", "password1", "S2").unwrap();
    log_in(&mut db, "alice@x.com", "password1", "S3").unwrap();
    let s1 = s("S1");
    logout(&mut db, Some(&s1));
    assert!(!session_exists(&db, &s1));
    assert!(session_exists(&db, &s("S2")));
    logout(&mut db, None);
    assert_eq!(logout_everywhere(&mut db, Some(&s1), NOW), Err(ServiceError::InvalidSession));
    assert!(logout_everywhere(&mut db, None, NOW).is_ok());
    let s2 = s("S2");
    assert!(logout_everywhere(&mut db, Some(&s2), NOW).is_ok());
    assert!(!session_exists(&db, &s2));
    assert!(!session_exists(&db, &s("S3")));
}

#[test]
fn verification_token_is_reused_per_email() {
    let mut db = store();
    let a = create_verification(&mut db, s("z@x.com"), s("first"), NOW).unwrap();
    let b = create_verification(&mut db, s("z@x.com"), s("second"), NOW + 5).unwrap();
    assert_eq!(a.id, "first");
    assert_eq!(b.id, "first");
    assert!(!verification_exists(&db, &s("second"), NOW + 5));
    let c = create_verification(&mut db, s("y@x.com"), s("first"), NOW);
    assert_eq!(c.unwrap_err(), ServiceError::DuplicateToken);
}

#[test]
fn verification_token_expires() {
    let mut db = store();
    reg(&mut db, "alice", "alice@x.com", "password1", "T").unwrap();
    assert!(verification_exists(&db, &s("T"), NOW + VERIFICATION_LIFETIME - 1));
    assert!(!verification_exists(&db, &s("T"), NOW + VERIFICATION_LIFETIME));
    let r = verify_account(&mut db, VerifyAccountQuery { verify_id: s("T") }, NOW + VERIFICATION_LIFETIME);
    assert_eq!(r, Err(ServiceError::InvalidVerifyId));
}

#[test]
fn verification_without_account_reports_missing_user() {
    let mut db = store();
    create_verification(&mut db, s("ghost@x.com"), s("G"), NOW).unwrap();
    assert_eq!(get_user_by_verification(&db, &s("G"), NOW).unwrap_err(), ServiceError::UserNotFound);
    let r = verify_account(&mut db, VerifyAccountQuery { verify_id: s("G") }, NOW);
    assert_eq!(r, Err(ServiceError::UserNotFound));
}

#[test]
fn unverified_account_is_pruned_after_its_grace_period() {
    let mut db = store();
    reg(&mut db, "alice", "alice@x.com", "password1", "T").unwrap();
    let later = NOW + UNVERIFIED_USER_LIFETIME;
    assert!(user_exists_for_username(&db, &s("alice"), later - 1));
    assert!(!user_exists_for_username(&db, &s("alice"), later));
    prune_unverified_users(&mut db, later);
    assert_eq!(db.users.len(), 0);
    let r = register(
        &mut db,
        RegisterQuery { username: s("alice"), email: s("alice@x.com"), password: s("password1") },
        s("T2"),
        later,
    );
    assert!(r.is_ok());
}

#[test]
fn verified_account_is_kept() {
    let mut db = store();
    reg(&mut db, "alice", "alice@x.com", "password1", "T").unwrap();
    verify_account(&mut db, VerifyAccountQuery { verify_id: s("T") }, NOW).unwrap();
    prune_unverified_users(&mut db, NOW + 10 * UNVERIFIED_USER_LIFETIME);
    assert!(user_exists_for_username(&db, &s("alice"), NOW + 10 * UNVERIFIED_USER_LIFETIME));
}

#[test]
fn password_reset_changes_the_password() {
    let mut db = store();
    reg(&mut db, "alice", "alice@x.com", "password1", "T").unwrap();
    let p = request_password_reset(&mut db, RequestPasswordResetQuery { email: s("alice@x.com") }, s("R"), NOW).unwrap();
    assert_eq!(p.id, "R");
    assert!(password_reset_exists(&db, PasswordResetExistsQuery { reset_id: s("R") }, NOW));
    let short = reset_password(&mut db, ResetPasswordQuery { reset_id: s("R"), new_password: s("short") }, NOW);
    assert_eq!(short, Err(ServiceError::PasswordLength));
    assert!(password_reset_exists(&db, PasswordResetExistsQuery { reset_id: s("R") }, NOW));
    reset_password(&mut db, ResetPasswordQuery { reset_id: s("R"), new_password: s("new-password") }, NOW).unwrap();
    assert!(!password_reset_exists(&db, PasswordResetExistsQuery { reset_id: s("R") }, NOW));
    assert_eq!(log_in(&mut db, "alice@x.com", "password1", "S1").unwrap_err(), ServiceError::InvalidLogin);
    assert!(log_in(&mut db, "alice@x.com", "new-password", "S2").is_ok());
    let again = reset_password(&mut db, ResetPasswordQuery { reset_id: s("R"), new_password: s("third-password") }, NOW);
    assert_eq!(again, Err(ServiceError::InvalidResetId));
}

#[test]
fn password_reset_for_unknown_address() {
    let mut db = store();
    let p = request_password_reset(&mut db, RequestPasswordResetQuery { email: s("none@x.com") }, s("R"), NOW).unwrap();
    assert_eq!(p.email, "none@x.com");
    let r = reset_password(&mut db, ResetPasswordQuery { reset_id: s("R"), new_password: s("new-password") }, NOW);
    assert_eq!(r, Err(ServiceError::UserNotFound));
}

#[test]
fn account_routes_need_a_session() {
    let mut db = store();
    reg(&mut db, "alice", "alice@x.com", "password1", "T").unwrap();
    assert_eq!(get_user_info(&db, None, NOW).err(), Some(ServiceError::NotLoggedIn));
    let bad = s("nope");
    assert_eq!(get_user_info(&db, Some(&bad), NOW).err(), Some(ServiceError::InvalidSession));
    log_in(&mut db, "alice@x.com", "password1", "S1").unwrap();
    let sid = s("S1");
    let info = get_user_info(&db, Some(&sid), NOW).ok().unwrap();
    assert_eq!(info.username, "alice");
    assert_eq!(info.email, "alice@x.com");
    assert_eq!(info.join_time, NOW as i64);
    assert_eq!(set_username(&mut db, Some(&sid), SetUsernameQuery { new_username: s("alice") }, NOW), Err(ServiceError::UsernameInUse));
    assert_eq!(set_username(&mut db, Some(&sid), SetUsernameQuery { new_username: s("al") }, NOW), Err(ServiceError::UsernameLength));
    set_username(&mut db, Some(&sid), SetUsernameQuery { new_username: s("alicia") }, NOW).unwrap();
    assert!(user_exists_for_username(&db, &s("alicia"), NOW));
    assert_eq!(set_password(&mut db, Some(&sid), SetPasswordQuery { new_password: s("short") }, NOW), Err(ServiceError::PasswordLength));
    set_password(&mut db, Some(&sid), SetPasswordQuery { new_password: s("password2") }, NOW).unwrap();
    assert!(log_in(&mut db, "alice@x.com", "password2", "S9").is_ok());
}

#[test]
fn taken_token_id_leaves_no_account() {
    let mut db = store();
    reg(&mut db, "alice", "alice@x.com", "password1", "T").unwrap();
    let r = reg(&mut db, "bobby", "bobby@x.com", "password1", "T");
    assert_eq!(r.unwrap_err(), ServiceError::DuplicateToken);
    assert!(!user_exists_for_username(&db, &s("bobby"), NOW));
    let again = reg(&mut db, "bobby", "bobby@x.com", "password1", "U").unwrap();
    assert_eq!(again.id, "U");
    assert_eq!(again.email, "bobby@x.com");
}

#[test]
fn registration_error_comes_before_a_taken_token_id() {
    let mut db = store();
    reg(&mut db, "alice", "alice@x.com", "password1", "T").unwrap();
    let r = reg(&mut db, "al", "bobby@x.com", "password1", "T");
    assert_eq!(r.unwrap_err(), ServiceError::UsernameLength);
}
