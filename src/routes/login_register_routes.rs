//! Registration, login and logout.
use vstd::prelude::*;
use crate::error::ServiceError;
use crate::records::{User, Session, Verify, Token};
use crate::crypto::password_matches;
use crate::store::{Store, VERIFICATION_LIFETIME, MAX_USER_SESSIONS, user_sessions, user_live};
use crate::services::token_table::{token_valid, token_for_email, lemma_pruned_tokens, lemma_pruned_id_taken, has_token_id, pruned_tokens};
use crate::services::user_service::{check_registration, new_user, create_user, login as login_user, registration_error, login_refusal, pruned_users, email_taken};
use crate::services::verify_service::{create_verification, verification_exists, verification_exists_for_email, prune_verifications};
use crate::services::session_service::{delete_session, delete_user_sessions, has_session, latest, not_session, not_of_user, session_user_exists};
use crate::util::get_user_by_session;

verus! {

pub struct RegisterQuery {
    pub username: String,
    pub email: String,
    pub password: String,
}

pub struct LoginQuery {
    pub email: String,
    pub password: String,
}

/// The token id `id` cannot be used for a new verification of `email`: no
/// token for the address is pending, and a pending token already has the id.
pub open spec fn verify_id_taken(db: Store, email: Seq<char>, id: Seq<char>, now: u64) -> bool {
    !token_for_email(db.verifications@, email, now, VERIFICATION_LIFETIME) && has_token_id(
        pruned_tokens(db.verifications@, now, VERIFICATION_LIFETIME),
        id,
    )
}

/// Registers an account and issues its verification token (reusing one that
/// is pending for the address), which the caller then mails. A new token
/// gets the id `verify_id`. Either both the account and its token are
/// recorded or, on failure, no account is added.
pub fn register(db: &mut Store, query: RegisterQuery, verify_id: String, now: u64) -> (r: Result<
    Verify,
    ServiceError,
>)
    requires
        old(db).wf(),
    ensures
        final(db).wf(),
        registration_error(old(db).users@, query.username@, query.email@, query.password@, now) matches Some(
            e,
        ) ==> r == Err::<Verify, ServiceError>(e) && final(db).same_as(old(db)),
        registration_error(old(db).users@, query.username@, query.email@, query.password@, now) is None
            && verify_id_taken(*old(db), query.email@, verify_id@, now) ==> r == Err::<
            Verify,
            ServiceError,
        >(ServiceError::DuplicateToken) && final(db).same_users(old(db)),
        registration_error(old(db).users@, query.username@, query.email@, query.password@, now) is None
            && !verify_id_taken(*old(db), query.email@, verify_id@, now) ==> {
            ||| r is Ok
            ||| r == Err::<Verify, ServiceError>(ServiceError::HashFailed)
            ||| r == Err::<Verify, ServiceError>(ServiceError::IdsExhausted) && old(db).next_user_id
                == i32::MAX
        },
        registration_error(old(db).users@, query.username@, query.email@, query.password@, now) is None
            && !verify_id_taken(*old(db), query.email@, verify_id@, now) && (old(db).hash_cost < 4
            || old(db).hash_cost > 31) ==> r == Err::<Verify, ServiceError>(ServiceError::HashFailed),
        r is Err && r != Err::<Verify, ServiceError>(ServiceError::DuplicateToken) ==> final(
            db).verifications@ == old(db).verifications@,
        r == Err::<Verify, ServiceError>(ServiceError::DuplicateToken) ==> final(db).verifications@
            == pruned_tokens(old(db).verifications@, now, VERIFICATION_LIFETIME),
        r is Err ==> final(db).users@ == old(db).users@ || final(db).users@ == pruned_users(
            old(db).users@,
            now,
        ),
        r matches Ok(v) ==> {
            &&& v.email@ == query.email@
            &&& final(db).verifications@.contains(
                Token { id: v.id, email: v.email, create_time: v.create_time },
            )
            &&& token_valid(final(db).verifications@, v.id@, now, VERIFICATION_LIFETIME)
            &&& exists|u: User|
                #[trigger] final(db).users@ == pruned_users(old(db).users@, now).push(u) && u
                    == new_user(old(db).next_user_id, query.username, query.email, u.password, now)
                    && password_matches(query.password@, u.password@)
        },
        final(db).password_resets@ == old(db).password_resets@,
        final(db).same_sessions(old(db)),
        final(db).same_polls(old(db)),
{
    let RegisterQuery { username, email, password } = query;
    check_registration(db, &username, &email, &password, now)?;
    let ghost vs = db.verifications@;
    proof {
        lemma_pruned_id_taken(vs, verify_id@, now, VERIFICATION_LIFETIME);
    }
    if !verification_exists_for_email(db, &email, now) && verification_exists(db, &verify_id, now) {
        prune_verifications(db, now);
        return Err(ServiceError::DuplicateToken);
    }
    let user = create_user(db, username, email, password, now)?;
    let ghost us = db.users@;
    let addr = user.email.clone();
    let v = create_verification(db, addr, verify_id, now)?;
    proof {
        lemma_pruned_tokens(vs, now, VERIFICATION_LIFETIME, v.id@, v.email@);
        let f = db.verifications@;
        let t = Token { id: v.id, email: v.email, create_time: v.create_time };
        if token_for_email(vs, user.email@, now, VERIFICATION_LIFETIME) {
            let i = choose|i: int|
                0 <= i < f.len() && v == Verify::from_token_spec(#[trigger] f[i]) && v.email@
                    == user.email@;
            assert(f[i] == t);
            assert(f[i].id@ == v.id@);
        } else {
            assert(f[f.len() - 1] == t);
            assert(f[f.len() - 1].id@ == v.id@);
        }
        assert(db.users@ == us);
    }
    Ok(v)
}

/// Logs in and opens session `session_id`, whose id the caller sets as a
/// cookie.
pub fn login(db: &mut Store, query: LoginQuery, session_id: String, now: u64) -> (r: Result<
    Session,
    ServiceError,
>)
    requires
        old(db).wf(),
    ensures
        final(db).wf(),
        login_refusal(old(db).users@, query.email@, query.password@, now) matches Some(e) ==> r
            == Err::<Session, ServiceError>(e),
        !email_taken(old(db).users@, query.email@, now) ==> r == Err::<Session, ServiceError>(
            ServiceError::InvalidLogin,
        ),
        login_refusal(old(db).users@, query.email@, query.password@, now) is None ==> if has_session(
            old(db).sessions@,
            session_id@,
        ) {
            r == Err::<Session, ServiceError>(ServiceError::DuplicateToken)
        } else {
            r is Ok
        },
        r is Err ==> final(db).sessions@ == old(db).sessions@,
        r matches Ok(s) ==> exists|j: int|
            0 <= j < old(db).users@.len() && #[trigger] old(db).users@[j].id == s.user_id
                && old(db).users@[j].email@ == query.email@ && user_live(old(db).users@[j], now)
                && password_matches(query.password@, old(db).users@[j].password@),
        r matches Ok(s) ==> s.id == session_id && s.create_time == now && user_sessions(
            final(db).sessions@,
            s.user_id,
        ) == latest(user_sessions(old(db).sessions@, s.user_id).push(s), MAX_USER_SESSIONS as nat)
            && final(db).sessions@.filter(not_of_user(s.user_id)) == old(db).sessions@.filter(
            not_of_user(s.user_id),
        ),
{
    login_user(db, &query.email, &query.password, session_id, now)
}

/// Ends the session of cookie `session_id`, if there is one.
pub fn logout(db: &mut Store, session_id: Option<&String>)
    requires
        old(db).wf(),
    ensures
        final(db).wf(),
        session_id matches Some(s) ==> final(db).sessions@ == old(db).sessions@.filter(
            not_session(s@),
        ),
        session_id is None ==> final(db).sessions@ == old(db).sessions@,
        final(db).same_users(old(db)),
        final(db).same_tokens(old(db)),
        final(db).same_polls(old(db)),
{
    if let Some(s) = session_id {
        delete_session(db, s);
    }
}

/// Ends every session of the user of cookie `session_id`. Without a cookie
/// there is nothing to end.
pub fn logout_everywhere(db: &mut Store, session_id: Option<&String>, now: u64) -> (r: Result<
    (),
    ServiceError,
>)
    requires
        old(db).wf(),
    ensures
        final(db).wf(),
        session_id is None ==> r is Ok && final(db).same_as(old(db)),
        session_id matches Some(s) && !session_user_exists(old(db).sessions@, old(db).users@, s@, now)
            ==> r == Err::<(), ServiceError>(ServiceError::InvalidSession) && final(db).same_as(
            old(db),
        ),
        session_id matches Some(s) && session_user_exists(old(db).sessions@, old(db).users@, s@, now)
            ==> r is Ok && exists|i: int|
            0 <= i < old(db).sessions@.len() && #[trigger] old(db).sessions@[i].id@ == session_id.unwrap()@ && final(db).sessions@ == old(db).sessions@.filter(not_of_user(old(db).sessions@[i].user_id)),
        final(db).same_users(old(db)),
        final(db).same_tokens(old(db)),
        final(db).same_polls(old(db)),
{
    if session_id.is_none() {
        return Ok(());
    }
    let user = get_user_by_session(db, session_id, now)?;
    delete_user_sessions(db, user.id);
    Ok(())
}

} // verus!
