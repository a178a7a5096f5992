//! The logged-in user's own account.
use vstd::prelude::*;
use crate::error::ServiceError;
use crate::validate::{valid_username, valid_password, rule};
use crate::store::Store;
use crate::crypto::password_matches;
use crate::services::user_service::{set_username as rename, set_password as change_password, username_taken, updated_users, pruned_users, UserUpdate};
use crate::routes::json::{UserJSON, user_json};
use crate::util::{get_user_by_session, auth_error, cookie_view};

verus! {

pub struct SetUsernameQuery {
    pub new_username: String,
}

pub struct SetPasswordQuery {
    pub new_password: String,
}

/// The public details of the logged-in user.
pub fn get_user_info(db: &Store, session_id: Option<&String>, now: u64) -> (r: Result<
    UserJSON,
    ServiceError,
>)
    requires
        db.wf(),
    ensures
        r matches Err(e) ==> auth_error(*db, cookie_view(session_id), now) == Some(e),
        r is Ok <==> auth_error(*db, cookie_view(session_id), now) is None,
        r matches Ok(j) ==> exists|k: int, i: int|
            0 <= k < db.users@.len() && 0 <= i < db.sessions@.len() && j == user_json(
                #[trigger] db.users@[k],
            ) && #[trigger] db.sessions@[i].id@ == session_id.unwrap()@ && db.sessions@[i].user_id
                == db.users@[k].id,
{
    let user = get_user_by_session(db, session_id, now)?;
    let ghost u = user;
    let r = UserJSON::from_user(user);
    proof {
        let k = choose|k: int| 0 <= k < db.users@.len() && db.users@[k] == u;
        let i = choose|i: int|
            0 <= i < db.sessions@.len() && #[trigger] db.sessions@[i].id@ == session_id.unwrap()@
                && db.sessions@[i].user_id == u.id;
        assert(r == user_json(db.users@[k]));
    }
    Ok(r)
}

/// Renames the logged-in user.
pub fn set_username(db: &mut Store, session_id: Option<&String>, query: SetUsernameQuery, now: u64) -> (r:
    Result<(), ServiceError>)
    requires
        old(db).wf(),
    ensures
        final(db).wf(),
        auth_error(*old(db), cookie_view(session_id), now) matches Some(e) ==> r == Err::<
            (),
            ServiceError,
        >(e) && final(db).same_as(old(db)),
        auth_error(*old(db), cookie_view(session_id), now) is None ==> r == if username_taken(
            old(db).users@,
            query.new_username@,
            now,
        ) {
            Err::<(), ServiceError>(ServiceError::UsernameInUse)
        } else {
            rule(valid_username(query.new_username@), ServiceError::UsernameLength)
        },
        r is Ok ==> exists|i: int|
            0 <= i < old(db).sessions@.len() && #[trigger] old(db).sessions@[i].id@
                == session_id.unwrap()@ && final(db).users@ == updated_users(
                pruned_users(old(db).users@, now),
                old(db).sessions@[i].user_id,
                UserUpdate::Username(query.new_username),
            ),
{
    let user = get_user_by_session(db, session_id, now)?;
    rename(db, user.id, query.new_username, now)
}

/// Changes the password of the logged-in user.
pub fn set_password(db: &mut Store, session_id: Option<&String>, query: SetPasswordQuery, now: u64) -> (r:
    Result<(), ServiceError>)
    requires
        old(db).wf(),
    ensures
        final(db).wf(),
        auth_error(*old(db), cookie_view(session_id), now) matches Some(e) ==> r == Err::<
            (),
            ServiceError,
        >(e) && final(db).same_as(old(db)),
        auth_error(*old(db), cookie_view(session_id), now) is None && !valid_password(
            query.new_password@,
        ) ==> r == Err::<(), ServiceError>(ServiceError::PasswordLength),
        auth_error(*old(db), cookie_view(session_id), now) is None && valid_password(
            query.new_password@,
        ) ==> r is Ok || r == Err::<(), ServiceError>(ServiceError::HashFailed),
        r is Ok ==> exists|i: int, h: String|
            0 <= i < old(db).sessions@.len() && #[trigger] old(db).sessions@[i].id@
                == session_id.unwrap()@ && #[trigger] password_matches(query.new_password@, h@)
                && final(db).users@ == updated_users(
                pruned_users(old(db).users@, now),
                old(db).sessions@[i].user_id,
                UserUpdate::PasswordHash(h),
            ),
        r is Err ==> final(db).users@ == old(db).users@ || final(db).users@ == pruned_users(
            old(db).users@,
            now,
        ),
        final(db).same_sessions(old(db)),
        final(db).same_tokens(old(db)),
        final(db).same_polls(old(db)),
{
    let user = get_user_by_session(db, session_id, now)?;
    change_password(db, user.id, &query.new_password, now)
}

} // verus!
