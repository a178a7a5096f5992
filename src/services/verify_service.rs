//! Email verification: one pending token per address, used up on verification.
use vstd::prelude::*;
use crate::error::ServiceError;
use crate::records::{Verify, User};
use crate::store::{Store, VERIFICATION_LIFETIME};
use crate::services::token_table::{has_token_id, token_valid, token_for_email, token_user_exists, pruned_tokens, consumed, find_token, find_token_for_email, prune_tokens, consume_token, issue_token, token_user};
use crate::services::user_service::{pruned_users, updated_users, UserUpdate, set_verified};

verus! {

/// Removes the verifications that have expired at `now`.
pub fn prune_verifications(db: &mut Store, now: u64)
    requires
        old(db).wf(),
    ensures
        final(db).wf(),
        final(db).verifications@ == pruned_tokens(old(db).verifications@, now, VERIFICATION_LIFETIME),
        final(db).password_resets@ == old(db).password_resets@,
        final(db).same_users(old(db)),
        final(db).same_sessions(old(db)),
        final(db).same_polls(old(db)),
{
    prune_tokens(&mut db.verifications, now, VERIFICATION_LIFETIME);
}

/// Prunes at `now`, then hands out the pending verification of `email`, or records
/// a new one with id `id` when there is none. An id already in use is refused.
pub fn create_verification(db: &mut Store, email: String, id: String, now: u64) -> (r: Result<
    Verify,
    ServiceError,
>)
    requires
        old(db).wf(),
    ensures
        final(db).wf(),
        token_for_email(old(db).verifications@, email@, now, VERIFICATION_LIFETIME) ==> final(db).verifications@
            == pruned_tokens(old(db).verifications@, now, VERIFICATION_LIFETIME) && (r matches Ok(v) && exists|i: int|
            0 <= i < final(db).verifications@.len() && v == Verify::from_token_spec(
                #[trigger] final(db).verifications@[i],
            ) && v.email@ == email@),
        !token_for_email(old(db).verifications@, email@, now, VERIFICATION_LIFETIME) && has_token_id(
            pruned_tokens(old(db).verifications@, now, VERIFICATION_LIFETIME),
            id@,
        ) ==> r == Err::<Verify, ServiceError>(ServiceError::DuplicateToken) && final(db).verifications@ == pruned_tokens(old(db).verifications@, now, VERIFICATION_LIFETIME),
        !token_for_email(old(db).verifications@, email@, now, VERIFICATION_LIFETIME) && !has_token_id(
            pruned_tokens(old(db).verifications@, now, VERIFICATION_LIFETIME),
            id@,
        ) ==> r == Ok::<Verify, ServiceError>(Verify { id, email, create_time: now }) && final(db).verifications@ == pruned_tokens(old(db).verifications@, now, VERIFICATION_LIFETIME).push(
            crate::records::Token { id, email, create_time: now },
        ),
        final(db).password_resets@ == old(db).password_resets@,
        final(db).same_users(old(db)),
        final(db).same_sessions(old(db)),
        final(db).same_polls(old(db)),
{
    let t = issue_token(&mut db.verifications, email, id, now, VERIFICATION_LIFETIME);
    match t {
        Ok(t) => {
            proof {
                if token_for_email(old(db).verifications@, email@, now, VERIFICATION_LIFETIME) {
                    let i = choose|i: int| 0 <= i < db.verifications@.len() && db.verifications@[i] == t;
                    assert(Verify::from_token_spec(db.verifications@[i]) == Verify::from_token_spec(t));
                }
            }
            Ok(Verify::from_token(t))
        },
        Err(e) => Err(e),
    }
}

/// Whether verification `id` is pending and unexpired at `now`.
pub fn verification_exists(db: &Store, id: &String, now: u64) -> (r: bool)
    ensures
        r == token_valid(db.verifications@, id@, now, VERIFICATION_LIFETIME),
{
    find_token(&db.verifications, id, now, VERIFICATION_LIFETIME).is_some()
}

/// Whether a verification for `email` is pending and unexpired at `now`.
pub fn verification_exists_for_email(db: &Store, email: &String, now: u64) -> (r: bool)
    ensures
        r == token_for_email(db.verifications@, email@, now, VERIFICATION_LIFETIME),
{
    find_token_for_email(&db.verifications, email, now, VERIFICATION_LIFETIME).is_some()
}

/// The pending verification `id`.
pub fn get_verification(db: &Store, id: &String, now: u64) -> (r: Result<Verify, ServiceError>)
    requires
        db.wf(),
    ensures
        r matches Ok(v) ==> exists|i: int|
            0 <= i < db.verifications@.len() && v == Verify::from_token_spec(#[trigger] db.verifications@[i])
                && v.id@ == id@ && crate::store::token_live(db.verifications@[i], now, VERIFICATION_LIFETIME),
        r is Err <==> !token_valid(db.verifications@, id@, now, VERIFICATION_LIFETIME),
        r is Err ==> r == Err::<Verify, ServiceError>(ServiceError::VerificationNotFound),
{
    match find_token(&db.verifications, id, now, VERIFICATION_LIFETIME) {
        Some(i) => Ok(Verify::from_token(db.verifications[i].cloned())),
        None => Err(ServiceError::VerificationNotFound),
    }
}

/// The pending verification for `email`.
pub fn get_verification_for_email(db: &Store, email: &String, now: u64) -> (r: Result<
    Verify,
    ServiceError,
>)
    requires
        db.wf(),
    ensures
        r matches Ok(v) ==> exists|i: int|
            0 <= i < db.verifications@.len() && v == Verify::from_token_spec(#[trigger] db.verifications@[i])
                && v.email@ == email@ && crate::store::token_live(db.verifications@[i], now, VERIFICATION_LIFETIME),
        r is Err <==> !token_for_email(db.verifications@, email@, now, VERIFICATION_LIFETIME),
        r is Err ==> r == Err::<Verify, ServiceError>(ServiceError::VerificationNotFound),
{
    match find_token_for_email(&db.verifications, email, now, VERIFICATION_LIFETIME) {
        Some(i) => Ok(Verify::from_token(db.verifications[i].cloned())),
        None => Err(ServiceError::VerificationNotFound),
    }
}

/// The account that verification `id` was made for.
pub fn get_user_by_verification(db: &Store, id: &String, now: u64) -> (r: Result<
    User,
    ServiceError,
>)
    requires
        db.wf(),
    ensures
        r matches Ok(u) ==> db.users@.contains(u) && crate::store::user_live(u, now) && exists|i: int|
            0 <= i < db.verifications@.len() && #[trigger] db.verifications@[i].id@ == id@
                && crate::store::token_live(db.verifications@[i], now, VERIFICATION_LIFETIME) && db.verifications@[i].email@
                == u.email@,
        r is Err <==> !token_user_exists(db.verifications@, db.users@, id@, now, VERIFICATION_LIFETIME),
        r is Err ==> r == Err::<User, ServiceError>(ServiceError::UserNotFound),
{
    match token_user(&db.verifications, &db.users, id, now, VERIFICATION_LIFETIME) {
        Some(j) => Ok(db.users[j].cloned()),
        None => Err(ServiceError::UserNotFound),
    }
}

/// Prunes at `now`, then removes verification `id`.
pub fn delete_verification(db: &mut Store, id: &String, now: u64)
    requires
        old(db).wf(),
    ensures
        final(db).wf(),
        final(db).verifications@ == consumed(old(db).verifications@, id@, now, VERIFICATION_LIFETIME),
        final(db).password_resets@ == old(db).password_resets@,
        final(db).same_users(old(db)),
        final(db).same_sessions(old(db)),
        final(db).same_polls(old(db)),
{
    consume_token(&mut db.verifications, id, now, VERIFICATION_LIFETIME);
}

/// Confirms an account with verification token `id`: the token is used up
/// and the account it names becomes verified. Tokens are pruned at `now`
/// whatever the outcome.
pub fn verify_user(db: &mut Store, id: &String, now: u64) -> (r: Result<(), ServiceError>)
    requires
        old(db).wf(),
    ensures
        final(db).wf(),
        !token_valid(old(db).verifications@, id@, now, VERIFICATION_LIFETIME) ==> r == Err::<
            (),
            ServiceError,
        >(ServiceError::InvalidVerifyId),
        token_valid(old(db).verifications@, id@, now, VERIFICATION_LIFETIME) && !token_user_exists(
            old(db).verifications@,
            old(db).users@,
            id@,
            now,
            VERIFICATION_LIFETIME,
        ) ==> r == Err::<(), ServiceError>(ServiceError::UserNotFound),
        token_user_exists(old(db).verifications@, old(db).users@, id@, now, VERIFICATION_LIFETIME)
            ==> r is Ok,
        r is Err ==> final(db).verifications@ == pruned_tokens(
            old(db).verifications@,
            now,
            VERIFICATION_LIFETIME,
        ) && final(db).same_users(old(db)),
        r is Ok ==> final(db).verifications@ == consumed(
            old(db).verifications@,
            id@,
            now,
            VERIFICATION_LIFETIME,
        ) && exists|i: int, j: int|
            0 <= i < old(db).verifications@.len() && 0 <= j < old(db).users@.len()
                && #[trigger] old(db).verifications@[i].id@ == id@ && crate::store::token_live(
                old(db).verifications@[i],
                now,
                VERIFICATION_LIFETIME,
            ) && #[trigger] old(db).users@[j].email@ == old(db).verifications@[i].email@
                && crate::store::user_live(old(db).users@[j], now) && final(db).users@
                == updated_users(
                pruned_users(old(db).users@, now),
                old(db).users@[j].id,
                UserUpdate::Verified(true),
            ),
        r is Ok ==> final(db).next_user_id == old(db).next_user_id && final(db).hash_cost == old(db).hash_cost,
        final(db).password_resets@ == old(db).password_resets@,
        final(db).same_sessions(old(db)),
        final(db).same_polls(old(db)),
{
    let j = match token_user(&db.verifications, &db.users, id, now, VERIFICATION_LIFETIME) {
        Some(j) => j,
        None => {
            let valid = verification_exists(db, id, now);
            prune_verifications(db, now);
            return Err(
                if valid {
                    ServiceError::UserNotFound
                } else {
                    ServiceError::InvalidVerifyId
                },
            );
        },
    };
    let uid = db.users[j].id;
    let ghost jj = j as int;
    consume_token(&mut db.verifications, id, now, VERIFICATION_LIFETIME);
    set_verified(db, uid, true, now);
    proof {
        let vs = old(db).verifications@;
        let i = choose|i: int|
            0 <= i < vs.len() && #[trigger] vs[i].id@ == id@ && crate::store::token_live(
                vs[i],
                now,
                VERIFICATION_LIFETIME,
            ) && vs[i].email@ == old(db).users@[jj].email@;
        assert(old(db).verifications@[i].id@ == id@ && old(db).users@[jj].email@
            == old(db).verifications@[i].email@);
    }
    Ok(())
}

} // verus!
