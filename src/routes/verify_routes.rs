//! Account verification.
use vstd::prelude::*;
use crate::error::ServiceError;
use crate::store::{Store, VERIFICATION_LIFETIME};
use crate::services::token_table::{token_valid, token_user_exists, pruned_tokens, consumed};
use crate::services::user_service::{updated_users, pruned_users, UserUpdate};
use crate::services::verify_service::verify_user;

verus! {

pub struct VerifyAccountQuery {
    pub verify_id: String,
}

/// Verifies an account with the token mailed at registration.
pub fn verify_account(db: &mut Store, query: VerifyAccountQuery, now: u64) -> (r: Result<
    (),
    ServiceError,
>)
    requires
        old(db).wf(),
    ensures
        final(db).wf(),
        !token_valid(old(db).verifications@, query.verify_id@, now, VERIFICATION_LIFETIME) ==> r
            == Err::<(), ServiceError>(ServiceError::InvalidVerifyId),
        token_valid(old(db).verifications@, query.verify_id@, now, VERIFICATION_LIFETIME)
            && !token_user_exists(
            old(db).verifications@,
            old(db).users@,
            query.verify_id@,
            now,
            VERIFICATION_LIFETIME,
        ) ==> r == Err::<(), ServiceError>(ServiceError::UserNotFound),
        token_user_exists(
            old(db).verifications@,
            old(db).users@,
            query.verify_id@,
            now,
            VERIFICATION_LIFETIME,
        ) ==> r is Ok,
        r is Ok ==> !token_valid(final(db).verifications@, query.verify_id@, now, VERIFICATION_LIFETIME),
        r is Err ==> final(db).verifications@ == pruned_tokens(
            old(db).verifications@,
            now,
            VERIFICATION_LIFETIME,
        ) && final(db).same_users(old(db)),
        r is Ok ==> final(db).verifications@ == consumed(
            old(db).verifications@,
            query.verify_id@,
            now,
            VERIFICATION_LIFETIME,
        ) && exists|i: int, j: int|
            0 <= i < old(db).verifications@.len() && 0 <= j < old(db).users@.len()
                && #[trigger] old(db).verifications@[i].id@ == query.verify_id@
                && crate::store::token_live(old(db).verifications@[i], now, VERIFICATION_LIFETIME)
                && #[trigger] old(db).users@[j].email@ == old(db).verifications@[i].email@
                && crate::store::user_live(old(db).users@[j], now) && final(db).users@
                == updated_users(
                pruned_users(old(db).users@, now),
                old(db).users@[j].id,
                UserUpdate::Verified(true),
            ),
        final(db).password_resets@ == old(db).password_resets@,
        final(db).same_sessions(old(db)),
        final(db).same_polls(old(db)),
{
    let r = verify_user(db, &query.verify_id, now);
    proof {
        if r is Ok {
            crate::services::token_table::lemma_token_single_use(
                old(db).verifications@,
                query.verify_id@,
                now,
                now,
                VERIFICATION_LIFETIME,
            );
        }
    }
    r
}

} // verus!
