//! Password reset: one pending token per address, used up on reset.
use vstd::prelude::*;
use crate::error::ServiceError;
use crate::records::{PasswordReset, User};
use crate::store::{Store, PASSWORD_RESET_LIFETIME};
use crate::validate::{valid_password, check_password};
use crate::crypto::{password_matches, hash_password};
use crate::services::token_table::{has_token_id, token_valid, token_for_email, token_user_exists, pruned_tokens, consumed, find_token, find_token_for_email, prune_tokens, consume_token, issue_token, token_user};
use crate::services::user_service::{pruned_users, updated_users, UserUpdate, prune_unverified_users, update_user};

verus! {

/// Removes the password resets that have expired at `now`.
pub fn prune_password_resets(db: &mut Store, now: u64)
    requires
        old(db).wf(),
    ensures
        final(db).wf(),
        final(db).password_resets@ == pruned_tokens(old(db).password_resets@, now, PASSWORD_RESET_LIFETIME),
        final(db).verifications@ == old(db).verifications@,
        final(db).same_users(old(db)),
        final(db).same_sessions(old(db)),
        final(db).same_polls(old(db)),
{
    prune_tokens(&mut db.password_resets, now, PASSWORD_RESET_LIFETIME);
}

/// Prunes at `now`, then hands out the pending password reset of `email`, or records
/// a new one with id `id` when there is none. An id already in use is refused.
pub fn create_password_reset(db: &mut Store, email: String, id: String, now: u64) -> (r: Result<
    PasswordReset,
    ServiceError,
>)
    requires
        old(db).wf(),
    ensures
        final(db).wf(),
        token_for_email(old(db).password_resets@, email@, now, PASSWORD_RESET_LIFETIME) ==> final(db).password_resets@
            == pruned_tokens(old(db).password_resets@, now, PASSWORD_RESET_LIFETIME) && (r matches Ok(v) && exists|i: int|
            0 <= i < final(db).password_resets@.len() && v == PasswordReset::from_token_spec(
                #[trigger] final(db).password_resets@[i],
            ) && v.email@ == email@),
        !token_for_email(old(db).password_resets@, email@, now, PASSWORD_RESET_LIFETIME) && has_token_id(
            pruned_tokens(old(db).password_resets@, now, PASSWORD_RESET_LIFETIME),
            id@,
        ) ==> r == Err::<PasswordReset, ServiceError>(ServiceError::DuplicateToken) && final(db).password_resets@ == pruned_tokens(old(db).password_resets@, now, PASSWORD_RESET_LIFETIME),
        !token_for_email(old(db).password_resets@, email@, now, PASSWORD_RESET_LIFETIME) && !has_token_id(
            pruned_tokens(old(db).password_resets@, now, PASSWORD_RESET_LIFETIME),
            id@,
        ) ==> r == Ok::<PasswordReset, ServiceError>(PasswordReset { id, email, create_time: now }) && final(db).password_resets@ == pruned_tokens(old(db).password_resets@, now, PASSWORD_RESET_LIFETIME).push(
            crate::records::Token { id, email, create_time: now },
        ),
        final(db).verifications@ == old(db).verifications@,
        final(db).same_users(old(db)),
        final(db).same_sessions(old(db)),
        final(db).same_polls(old(db)),
{
    let t = issue_token(&mut db.password_resets, email, id, now, PASSWORD_RESET_LIFETIME);
    match t {
        Ok(t) => {
            proof {
                if token_for_email(old(db).password_resets@, email@, now, PASSWORD_RESET_LIFETIME) {
                    let i = choose|i: int| 0 <= i < db.password_resets@.len() && db.password_resets@[i] == t;
                    assert(PasswordReset::from_token_spec(db.password_resets@[i]) == PasswordReset::from_token_spec(t));
                }
            }
            Ok(PasswordReset::from_token(t))
        },
        Err(e) => Err(e),
    }
}

/// Whether password reset `id` is pending and unexpired at `now`.
pub fn password_reset_exists(db: &Store, id: &String, now: u64) -> (r: bool)
    ensures
        r == token_valid(db.password_resets@, id@, now, PASSWORD_RESET_LIFETIME),
{
    find_token(&db.password_resets, id, now, PASSWORD_RESET_LIFETIME).is_some()
}

/// Whether a password reset for `email` is pending and unexpired at `now`.
pub fn password_reset_exists_for_email(db: &Store, email: &String, now: u64) -> (r: bool)
    ensures
        r == token_for_email(db.password_resets@, email@, now, PASSWORD_RESET_LIFETIME),
{
    find_token_for_email(&db.password_resets, email, now, PASSWORD_RESET_LIFETIME).is_some()
}

/// The pending password reset `id`.
pub fn get_password_reset(db: &Store, id: &String, now: u64) -> (r: Result<PasswordReset, ServiceError>)
    requires
        db.wf(),
    ensures
        r matches Ok(v) ==> exists|i: int|
            0 <= i < db.password_resets@.len() && v == PasswordReset::from_token_spec(#[trigger] db.password_resets@[i])
                && v.id@ == id@ && crate::store::token_live(db.password_resets@[i], now, PASSWORD_RESET_LIFETIME),
        r is Err <==> !token_valid(db.password_resets@, id@, now, PASSWORD_RESET_LIFETIME),
        r is Err ==> r == Err::<PasswordReset, ServiceError>(ServiceError::PasswordResetNotFound),
{
    match find_token(&db.password_resets, id, now, PASSWORD_RESET_LIFETIME) {
        Some(i) => Ok(PasswordReset::from_token(db.password_resets[i].cloned())),
        None => Err(ServiceError::PasswordResetNotFound),
    }
}

/// The pending password reset for `email`.
pub fn get_password_reset_for_email(db: &Store, email: &String, now: u64) -> (r: Result<
    PasswordReset,
    ServiceError,
>)
    requires
        db.wf(),
    ensures
        r matches Ok(v) ==> exists|i: int|
            0 <= i < db.password_resets@.len() && v == PasswordReset::from_token_spec(#[trigger] db.password_resets@[i])
                && v.email@ == email@ && crate::store::token_live(db.password_resets@[i], now, PASSWORD_RESET_LIFETIME),
        r is Err <==> !token_for_email(db.password_resets@, email@, now, PASSWORD_RESET_LIFETIME),
        r is Err ==> r == Err::<PasswordReset, ServiceError>(ServiceError::PasswordResetNotFound),
{
    match find_token_for_email(&db.password_resets, email, now, PASSWORD_RESET_LIFETIME) {
        Some(i) => Ok(PasswordReset::from_token(db.password_resets[i].cloned())),
        None => Err(ServiceError::PasswordResetNotFound),
    }
}

/// The account that password reset `id` was made for.
pub fn get_user_by_password_reset(db: &Store, id: &String, now: u64) -> (r: Result<
    User,
    ServiceError,
>)
    requires
        db.wf(),
    ensures
        r matches Ok(u) ==> db.users@.contains(u) && crate::store::user_live(u, now) && exists|i: int|
            0 <= i < db.password_resets@.len() && #[trigger] db.password_resets@[i].id@ == id@
                && crate::store::token_live(db.password_resets@[i], now, PASSWORD_RESET_LIFETIME) && db.password_resets@[i].email@
                == u.email@,
        r is Err <==> !token_user_exists(db.password_resets@, db.users@, id@, now, PASSWORD_RESET_LIFETIME),
        r is Err ==> r == Err::<User, ServiceError>(ServiceError::UserNotFound),
{
    match token_user(&db.password_resets, &db.users, id, now, PASSWORD_RESET_LIFETIME) {
        Some(j) => Ok(db.users[j].cloned()),
        None => Err(ServiceError::UserNotFound),
    }
}

/// Prunes at `now`, then removes password reset `id`.
pub fn delete_password_reset(db: &mut Store, id: &String, now: u64)
    requires
        old(db).wf(),
    ensures
        final(db).wf(),
        final(db).password_resets@ == consumed(old(db).password_resets@, id@, now, PASSWORD_RESET_LIFETIME),
        final(db).verifications@ == old(db).verifications@,
        final(db).same_users(old(db)),
        final(db).same_sessions(old(db)),
        final(db).same_polls(old(db)),
{
    consume_token(&mut db.password_resets, id, now, PASSWORD_RESET_LIFETIME);
}

/// Sets a new password with reset token `id`: the token is used up and the
/// account it names gets a hash of `new_password`, made with the store's
/// cost. The password is checked before the token is used, so a refused
/// password leaves the token pending. Tokens are pruned at `now` whatever the
/// outcome.
pub fn reset_password(db: &mut Store, id: &String, new_password: &String, now: u64) -> (r: Result<
    (),
    ServiceError,
>)
    requires
        old(db).wf(),
    ensures
        final(db).wf(),
        !token_valid(old(db).password_resets@, id@, now, PASSWORD_RESET_LIFETIME) ==> r == Err::<
            (),
            ServiceError,
        >(ServiceError::InvalidResetId),
        token_valid(old(db).password_resets@, id@, now, PASSWORD_RESET_LIFETIME)
            && !token_user_exists(
            old(db).password_resets@,
            old(db).users@,
            id@,
            now,
            PASSWORD_RESET_LIFETIME,
        ) ==> r == Err::<(), ServiceError>(ServiceError::UserNotFound),
        token_user_exists(
            old(db).password_resets@,
            old(db).users@,
            id@,
            now,
            PASSWORD_RESET_LIFETIME,
        ) && !valid_password(new_password@) ==> r == Err::<(), ServiceError>(
            ServiceError::PasswordLength,
        ),
        token_user_exists(
            old(db).password_resets@,
            old(db).users@,
            id@,
            now,
            PASSWORD_RESET_LIFETIME,
        ) && valid_password(new_password@) ==> r is Ok || r == Err::<(), ServiceError>(
            ServiceError::HashFailed,
        ),
        r is Err ==> final(db).password_resets@ == pruned_tokens(
            old(db).password_resets@,
            now,
            PASSWORD_RESET_LIFETIME,
        ) && final(db).same_users(old(db)),
        r is Ok ==> final(db).password_resets@ == consumed(
            old(db).password_resets@,
            id@,
            now,
            PASSWORD_RESET_LIFETIME,
        ) && exists|i: int, j: int, h: String|
            0 <= i < old(db).password_resets@.len() && 0 <= j < old(db).users@.len()
                && #[trigger] old(db).password_resets@[i].id@ == id@ && crate::store::token_live(
                old(db).password_resets@[i],
                now,
                PASSWORD_RESET_LIFETIME,
            ) && #[trigger] old(db).users@[j].email@ == old(db).password_resets@[i].email@
                && crate::store::user_live(old(db).users@[j], now) && #[trigger] password_matches(
                new_password@,
                h@,
            ) && final(db).users@ == updated_users(
                pruned_users(old(db).users@, now),
                old(db).users@[j].id,
                UserUpdate::PasswordHash(h),
            ),
        r is Ok ==> final(db).next_user_id == old(db).next_user_id && final(db).hash_cost == old(db).hash_cost,
        final(db).verifications@ == old(db).verifications@,
        final(db).same_sessions(old(db)),
        final(db).same_polls(old(db)),
{
    let j = match token_user(&db.password_resets, &db.users, id, now, PASSWORD_RESET_LIFETIME) {
        Some(j) => j,
        None => {
            let valid = password_reset_exists(db, id, now);
            prune_password_resets(db, now);
            return Err(
                if valid {
                    ServiceError::UserNotFound
                } else {
                    ServiceError::InvalidResetId
                },
            );
        },
    };
    if let Err(e) = check_password(new_password) {
        prune_password_resets(db, now);
        return Err(e);
    }
    let hash = match hash_password(new_password, db.hash_cost) {
        Ok(h) => h,
        Err(_) => {
            prune_password_resets(db, now);
            return Err(ServiceError::HashFailed);
        },
    };
    let uid = db.users[j].id;
    let ghost jj = j as int;
    let ghost h = hash;
    consume_token(&mut db.password_resets, id, now, PASSWORD_RESET_LIFETIME);
    prune_unverified_users(db, now);
    update_user(db, uid, UserUpdate::PasswordHash(hash));
    proof {
        let vs = old(db).password_resets@;
        let i = choose|i: int|
            0 <= i < vs.len() && #[trigger] vs[i].id@ == id@ && crate::store::token_live(
                vs[i],
                now,
                PASSWORD_RESET_LIFETIME,
            ) && vs[i].email@ == old(db).users@[jj].email@;
        assert(old(db).password_resets@[i].id@ == id@ && old(db).users@[jj].email@
            == old(db).password_resets@[i].email@ && password_matches(new_password@, h@));
    }
    Ok(())
}

} // verus!
