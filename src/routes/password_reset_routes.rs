//! Password reset by mailed token.
use vstd::prelude::*;
use crate::error::ServiceError;
use crate::records::PasswordReset;
use crate::store::{Store, PASSWORD_RESET_LIFETIME};
use crate::validate::valid_password;
use crate::crypto::password_matches;
use crate::records::Token;
use crate::services::user_service::{updated_users, pruned_users, UserUpdate};
use crate::services::token_table::{has_token_id, consumed, token_valid, token_for_email, token_user_exists, pruned_tokens, lemma_pruned_tokens, lemma_token_single_use};
use crate::services::password_reset_service::{create_password_reset, password_reset_exists as reset_pending, reset_password as reset_with_token};

verus! {

pub struct RequestPasswordResetQuery {
    pub email: String,
}

pub struct PasswordResetExistsQuery {
    pub reset_id: String,
}

pub struct ResetPasswordQuery {
    pub reset_id: String,
    pub new_password: String,
}

/// Issues a password reset token for an address (reusing one that is
/// pending), which the caller then mails. A new token gets the id
/// `reset_id`. The address is not checked against the accounts.
pub fn request_password_reset(
    db: &mut Store,
    query: RequestPasswordResetQuery,
    reset_id: String,
    now: u64,
) -> (r: Result<PasswordReset, ServiceError>)
    requires
        old(db).wf(),
    ensures
        final(db).wf(),
        r matches Ok(p) ==> p.email@ == query.email@ && token_valid(
            final(db).password_resets@,
            p.id@,
            now,
            PASSWORD_RESET_LIFETIME,
        ),
        token_for_email(old(db).password_resets@, query.email@, now, PASSWORD_RESET_LIFETIME) ==> r is Ok,
        !token_for_email(old(db).password_resets@, query.email@, now, PASSWORD_RESET_LIFETIME)
            && !has_token_id(
            pruned_tokens(old(db).password_resets@, now, PASSWORD_RESET_LIFETIME),
            reset_id@,
        ) ==> r == Ok::<PasswordReset, ServiceError>(
            PasswordReset { id: reset_id, email: query.email, create_time: now },
        ),
        r is Err ==> r == Err::<PasswordReset, ServiceError>(ServiceError::DuplicateToken),
        token_for_email(old(db).password_resets@, query.email@, now, PASSWORD_RESET_LIFETIME) ==> final(
            db).password_resets@ == pruned_tokens(old(db).password_resets@, now, PASSWORD_RESET_LIFETIME)
            && (r matches Ok(p) && exists|i: int|
            0 <= i < final(db).password_resets@.len() && p == PasswordReset::from_token_spec(
                #[trigger] final(db).password_resets@[i],
            )),
        !token_for_email(old(db).password_resets@, query.email@, now, PASSWORD_RESET_LIFETIME)
            && has_token_id(
            pruned_tokens(old(db).password_resets@, now, PASSWORD_RESET_LIFETIME),
            reset_id@,
        ) ==> r == Err::<PasswordReset, ServiceError>(ServiceError::DuplicateToken) && final(
            db).password_resets@ == pruned_tokens(old(db).password_resets@, now, PASSWORD_RESET_LIFETIME),
        !token_for_email(old(db).password_resets@, query.email@, now, PASSWORD_RESET_LIFETIME)
            && !has_token_id(
            pruned_tokens(old(db).password_resets@, now, PASSWORD_RESET_LIFETIME),
            reset_id@,
        ) ==> final(db).password_resets@ == pruned_tokens(
            old(db).password_resets@,
            now,
            PASSWORD_RESET_LIFETIME,
        ).push(Token { id: reset_id, email: query.email, create_time: now }),
        final(db).same_users(old(db)),
        final(db).same_sessions(old(db)),
        final(db).same_polls(old(db)),
        final(db).verifications@ == old(db).verifications@,
{
    let ghost rs = db.password_resets@;
    let ghost email = query.email@;
    let r = create_password_reset(db, query.email, reset_id, now);
    proof {
        match &r {
            Ok(p) => {
                lemma_pruned_tokens(rs, now, PASSWORD_RESET_LIFETIME, p.id@, p.email@);
                let f = db.password_resets@;
                if token_for_email(rs, email, now, PASSWORD_RESET_LIFETIME) {
                    let i = choose|i: int|
                        0 <= i < f.len() && *p == PasswordReset::from_token_spec(#[trigger] f[i])
                            && p.email@ == email;
                    assert(f[i].id@ == p.id@);
                } else {
                    assert(f[f.len() - 1].id@ == p.id@);
                }
            },
            Err(_) => {},
        }
    }
    r
}

/// Whether reset token `reset_id` is pending and unexpired at `now`.
pub fn password_reset_exists(db: &Store, query: PasswordResetExistsQuery, now: u64) -> (r: bool)
    ensures
        r == token_valid(db.password_resets@, query.reset_id@, now, PASSWORD_RESET_LIFETIME),
{
    reset_pending(db, &query.reset_id, now)
}

/// Sets a new password with a reset token.
pub fn reset_password(db: &mut Store, query: ResetPasswordQuery, now: u64) -> (r: Result<
    (),
    ServiceError,
>)
    requires
        old(db).wf(),
    ensures
        final(db).wf(),
        !token_valid(old(db).password_resets@, query.reset_id@, now, PASSWORD_RESET_LIFETIME) ==> r
            == Err::<(), ServiceError>(ServiceError::InvalidResetId),
        token_valid(old(db).password_resets@, query.reset_id@, now, PASSWORD_RESET_LIFETIME)
            && !token_user_exists(
            old(db).password_resets@,
            old(db).users@,
            query.reset_id@,
            now,
            PASSWORD_RESET_LIFETIME,
        ) ==> r == Err::<(), ServiceError>(ServiceError::UserNotFound),
        token_user_exists(
            old(db).password_resets@,
            old(db).users@,
            query.reset_id@,
            now,
            PASSWORD_RESET_LIFETIME,
        ) && !valid_password(query.new_password@) ==> r == Err::<(), ServiceError>(
            ServiceError::PasswordLength,
        ),
        token_user_exists(
            old(db).password_resets@,
            old(db).users@,
            query.reset_id@,
            now,
            PASSWORD_RESET_LIFETIME,
        ) && valid_password(query.new_password@) ==> r is Ok || r == Err::<(), ServiceError>(
            ServiceError::HashFailed,
        ),
        r is Ok ==> !token_valid(
            final(db).password_resets@,
            query.reset_id@,
            now,
            PASSWORD_RESET_LIFETIME,
        ),
        r is Err ==> final(db).password_resets@ == pruned_tokens(
            old(db).password_resets@,
            now,
            PASSWORD_RESET_LIFETIME,
        ) && final(db).same_users(old(db)),
        r is Ok ==> final(db).password_resets@ == consumed(
            old(db).password_resets@,
            query.reset_id@,
            now,
            PASSWORD_RESET_LIFETIME,
        ) && exists|i: int, j: int, h: String|
            0 <= i < old(db).password_resets@.len() && 0 <= j < old(db).users@.len()
                && #[trigger] old(db).password_resets@[i].id@ == query.reset_id@
                && crate::store::token_live(old(db).password_resets@[i], now, PASSWORD_RESET_LIFETIME)
                && #[trigger] old(db).users@[j].email@ == old(db).password_resets@[i].email@
                && crate::store::user_live(old(db).users@[j], now) && #[trigger] password_matches(
                query.new_password@,
                h@,
            ) && final(db).users@ == updated_users(
                pruned_users(old(db).users@, now),
                old(db).users@[j].id,
                UserUpdate::PasswordHash(h),
            ),
        final(db).verifications@ == old(db).verifications@,
        final(db).same_sessions(old(db)),
        final(db).same_polls(old(db)),
{
    let r = reset_with_token(db, &query.reset_id, &query.new_password, now);
    proof {
        lemma_token_single_use(
            old(db).password_resets@,
            query.reset_id@,
            now,
            now,
            PASSWORD_RESET_LIFETIME,
        );
    }
    r
}

} // verus!
