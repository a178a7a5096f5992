//! Poll options: anyone may read them; only the poll's owner may change them.
use vstd::prelude::*;
use crate::error::ServiceError;
use crate::records::PollOption;
use crate::validate::{valid_option_value, rule};
use crate::store::{Store, poll_options_of, MAX_POLL_OPTIONS};
use crate::services::poll_option_service::{create_poll_option as new_option, get_poll_option, get_poll_option_poll as poll_of_option, set_poll_option_value as set_value, delete_poll_option as remove_option, has_option, option_poll_exists, revalued, not_option, vote_not_for_option};
use crate::routes::json::{PollJSON, PollOptionJSON, poll_json, option_json};
use crate::util::{authorize_poll_edit, authorize_option_edit, poll_edit_error, option_edit_error, cookie_view};

verus! {

pub struct CreatePollOptionQuery {
    pub poll_id: i32,
    pub value: String,
}

pub struct GetPollOptionQuery {
    pub poll_option_id: i32,
}

pub struct SetPollOptionValueQuery {
    pub poll_option_id: i32,
    pub new_value: String,
}

pub struct GetPollOptionPollQuery {
    pub poll_option_id: i32,
}

pub struct DeletePollOptionQuery {
    pub poll_option_id: i32,
}

/// Adds an option to a poll of the logged-in user.
pub fn create_poll_option(
    db: &mut Store,
    session_id: Option<&String>,
    query: CreatePollOptionQuery,
    now: u64,
) -> (r: Result<PollOptionJSON, ServiceError>)
    requires
        old(db).wf(),
    ensures
        final(db).wf(),
        poll_edit_error(*old(db), cookie_view(session_id), query.poll_id, now) matches Some(e) ==> r
            == Err::<PollOptionJSON, ServiceError>(e) && final(db).same_as(old(db)),
        poll_edit_error(*old(db), cookie_view(session_id), query.poll_id, now) is None
            && poll_options_of(old(db).poll_options@, query.poll_id).len() >= MAX_POLL_OPTIONS ==> r
            == Err::<PollOptionJSON, ServiceError>(ServiceError::TooManyOptions),
        poll_edit_error(*old(db), cookie_view(session_id), query.poll_id, now) is None
            && poll_options_of(old(db).poll_options@, query.poll_id).len() < MAX_POLL_OPTIONS
            && !valid_option_value(query.value@) ==> r == Err::<PollOptionJSON, ServiceError>(
            ServiceError::OptionValueLength,
        ),
        poll_edit_error(*old(db), cookie_view(session_id), query.poll_id, now) is None
            && poll_options_of(old(db).poll_options@, query.poll_id).len() < MAX_POLL_OPTIONS
            && valid_option_value(query.value@) && old(db).next_poll_option_id < i32::MAX ==> r is Ok,
        r matches Ok(j) ==> exists|o: PollOption|
            o.id == old(db).next_poll_option_id && o.poll_id == query.poll_id && o.value == query.value
                && final(db).poll_options@
                == #[trigger] old(db).poll_options@.push(o) && j == option_json(o),
        r is Err ==> final(db).poll_options@ == old(db).poll_options@,
{
    authorize_poll_edit(db, session_id, query.poll_id, now)?;
    let o = new_option(db, query.poll_id, query.value)?;
    Ok(PollOptionJSON::from_option(o))
}

/// The option `poll_option_id`.
pub fn get_poll_option_info(db: &Store, query: GetPollOptionQuery) -> (r: Result<
    PollOptionJSON,
    ServiceError,
>)
    requires
        db.wf(),
    ensures
        r matches Ok(j) ==> exists|i: int|
            0 <= i < db.poll_options@.len() && #[trigger] db.poll_options@[i].id == query.poll_option_id
                && j == option_json(db.poll_options@[i]),
        r is Err <==> !has_option(db.poll_options@, query.poll_option_id),
        r is Err ==> r == Err::<PollOptionJSON, ServiceError>(ServiceError::PollOptionNotFound),
{
    let o = get_poll_option(db, query.poll_option_id)?;
    Ok(PollOptionJSON::from_option(o))
}

/// Sets the text of an option of a poll of the logged-in user.
pub fn set_poll_option_value(
    db: &mut Store,
    session_id: Option<&String>,
    query: SetPollOptionValueQuery,
    now: u64,
) -> (r: Result<(), ServiceError>)
    requires
        old(db).wf(),
    ensures
        final(db).wf(),
        option_edit_error(*old(db), cookie_view(session_id), query.poll_option_id, now) matches Some(
            e,
        ) ==> r == Err::<(), ServiceError>(e) && final(db).same_as(old(db)),
        option_edit_error(*old(db), cookie_view(session_id), query.poll_option_id, now) is None ==> r
            == rule(valid_option_value(query.new_value@), ServiceError::OptionValueLength),
        r is Ok ==> final(db).poll_options@ == revalued(
            old(db).poll_options@,
            query.poll_option_id,
            query.new_value,
        ),
        r is Err ==> final(db).poll_options@ == old(db).poll_options@,
{
    authorize_option_edit(db, session_id, query.poll_option_id, now)?;
    set_value(db, query.poll_option_id, query.new_value)
}

/// The poll that option `poll_option_id` belongs to.
pub fn get_poll_option_poll(db: &Store, query: GetPollOptionPollQuery) -> (r: Result<
    PollJSON,
    ServiceError,
>)
    requires
        db.wf(),
    ensures
        r matches Ok(j) ==> exists|i: int, k: int|
            0 <= i < db.poll_options@.len() && 0 <= k < db.polls@.len() && #[trigger] db.poll_options@[i].id
                == query.poll_option_id && #[trigger] db.polls@[k].id == db.poll_options@[i].poll_id
                && j == poll_json(db.polls@[k]),
        r is Ok <==> option_poll_exists(db.poll_options@, db.polls@, query.poll_option_id),
        !has_option(db.poll_options@, query.poll_option_id) ==> r == Err::<PollJSON, ServiceError>(
            ServiceError::PollOptionNotFound,
        ),
        has_option(db.poll_options@, query.poll_option_id) ==> r is Ok,
{
    let p = poll_of_option(db, query.poll_option_id)?;
    let ghost gp = p;
    let j = PollJSON::from_poll(p);
    proof {
        let k = choose|k: int| 0 <= k < db.polls@.len() && db.polls@[k] == gp;
        let i = choose|i: int|
            0 <= i < db.poll_options@.len() && #[trigger] db.poll_options@[i].id == query.poll_option_id
                && db.poll_options@[i].poll_id == gp.id;
        assert(db.polls@[k].id == db.poll_options@[i].poll_id);
    }
    Ok(j)
}

/// Deletes an option of a poll of the logged-in user, with its votes.
pub fn delete_poll_option(
    db: &mut Store,
    session_id: Option<&String>,
    query: DeletePollOptionQuery,
    now: u64,
) -> (r: Result<(), ServiceError>)
    requires
        old(db).wf(),
    ensures
        final(db).wf(),
        option_edit_error(*old(db), cookie_view(session_id), query.poll_option_id, now) matches Some(
            e,
        ) ==> r == Err::<(), ServiceError>(e) && final(db).same_as(old(db)),
        option_edit_error(*old(db), cookie_view(session_id), query.poll_option_id, now) is None ==> r is Ok,
        r is Ok ==> final(db).poll_options@ == old(db).poll_options@.filter(
            not_option(query.poll_option_id),
        ) && final(db).poll_votes@ == old(db).poll_votes@.filter(
            vote_not_for_option(query.poll_option_id),
        ),
{
    authorize_option_edit(db, session_id, query.poll_option_id, now)?;
    remove_option(db, query.poll_option_id);
    Ok(())
}

} // verus!
