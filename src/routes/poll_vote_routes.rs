//! Voting by the logged-in user.
use vstd::prelude::*;
use crate::error::ServiceError;
use crate::records::PollVote;
use crate::store::{Store, ballot_of};
use crate::services::poll_option_service::has_option;
use crate::services::poll_vote_service::{vote, unvote, get_poll_vote_poll as poll_of_vote, cast, not_ballot, has_vote, vote_poll_exists};
use crate::routes::json::{PollJSON, PollVoteJSON, poll_json, vote_json};
use crate::util::{get_user_by_session, auth_error, cookie_view};

verus! {

pub struct PollVoteQuery {
    pub poll_option_id: i32,
}

pub struct PollUnvoteQuery {
    pub poll_id: i32,
}

pub struct GetPollVotePollQuery {
    pub poll_vote_id: i32,
}

/// Casts the logged-in user's vote for an option, replacing the user's
/// ballot in that poll.
pub fn poll_vote(db: &mut Store, session_id: Option<&String>, query: PollVoteQuery, now: u64) -> (r:
    Result<PollVoteJSON, ServiceError>)
    requires
        old(db).wf(),
    ensures
        final(db).wf(),
        auth_error(*old(db), cookie_view(session_id), now) matches Some(e) ==> r == Err::<
            PollVoteJSON,
            ServiceError,
        >(e) && final(db).same_as(old(db)),
        auth_error(*old(db), cookie_view(session_id), now) is None && !has_option(
            old(db).poll_options@,
            query.poll_option_id,
        ) ==> r == Err::<PollVoteJSON, ServiceError>(ServiceError::PollOptionNotFound),
        auth_error(*old(db), cookie_view(session_id), now) is None && has_option(
            old(db).poll_options@,
            query.poll_option_id,
        ) && old(db).next_poll_vote_id < i32::MAX ==> r is Ok,
        r matches Ok(j) ==> exists|v: PollVote, i: int|
            0 <= i < old(db).sessions@.len() && #[trigger] old(db).sessions@[i].id@
                == session_id.unwrap()@ && v.user_id == old(db).sessions@[i].user_id
                && v.poll_option_id == query.poll_option_id && final(db).poll_votes@ == #[trigger] cast(
                old(db).poll_votes@,
                v,
            ) && final(db).poll_votes@.filter(ballot_of(v.user_id, v.poll_id)) == seq![v] && j
                == vote_json(v),
        r is Err ==> final(db).poll_votes@ == old(db).poll_votes@,
{
    let user = get_user_by_session(db, session_id, now)?;
    let v = vote(db, user.id, query.poll_option_id, now)?;
    Ok(PollVoteJSON::from_vote(v))
}

/// Withdraws the logged-in user's ballot in a poll.
pub fn poll_unvote(db: &mut Store, session_id: Option<&String>, query: PollUnvoteQuery, now: u64) -> (r:
    Result<(), ServiceError>)
    requires
        old(db).wf(),
    ensures
        final(db).wf(),
        auth_error(*old(db), cookie_view(session_id), now) matches Some(e) ==> r == Err::<
            (),
            ServiceError,
        >(e) && final(db).same_as(old(db)),
        auth_error(*old(db), cookie_view(session_id), now) is None ==> r is Ok,
        r is Ok ==> exists|i: int|
            0 <= i < old(db).sessions@.len() && #[trigger] old(db).sessions@[i].id@
                == session_id.unwrap()@ && final(db).poll_votes@ == old(db).poll_votes@.filter(
                not_ballot(old(db).sessions@[i].user_id, query.poll_id),
            ),
{
    let user = get_user_by_session(db, session_id, now)?;
    unvote(db, user.id, query.poll_id);
    Ok(())
}

/// The poll that vote `poll_vote_id` was cast in.
pub fn get_poll_vote_poll(db: &Store, query: GetPollVotePollQuery) -> (r: Result<
    PollJSON,
    ServiceError,
>)
    requires
        db.wf(),
    ensures
        r matches Ok(j) ==> exists|i: int, k: int|
            0 <= i < db.poll_votes@.len() && 0 <= k < db.polls@.len() && #[trigger] db.poll_votes@[i].id
                == query.poll_vote_id && #[trigger] db.polls@[k].id == db.poll_votes@[i].poll_id
                && j == poll_json(db.polls@[k]),
        r is Ok <==> vote_poll_exists(db.poll_votes@, db.polls@, query.poll_vote_id),
        !has_vote(db.poll_votes@, query.poll_vote_id) ==> r == Err::<PollJSON, ServiceError>(
            ServiceError::PollVoteNotFound,
        ),
        has_vote(db.poll_votes@, query.poll_vote_id) && r is Err ==> r == Err::<
            PollJSON,
            ServiceError,
        >(ServiceError::PollNotFound),
{
    let p = poll_of_vote(db, query.poll_vote_id)?;
    let ghost gp = p;
    let j = PollJSON::from_poll(p);
    proof {
        let k = choose|k: int| 0 <= k < db.polls@.len() && db.polls@[k] == gp;
        let i = choose|i: int|
            0 <= i < db.poll_votes@.len() && #[trigger] db.poll_votes@[i].id == query.poll_vote_id
                && db.poll_votes@[i].poll_id == gp.id;
        assert(db.polls@[k].id == db.poll_votes@[i].poll_id);
    }
    Ok(j)
}

} // verus!
