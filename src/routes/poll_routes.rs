//! Polls: anyone may read them; only the owner may change them.
use vstd::prelude::*;
use crate::error::ServiceError;
use crate::records::{Poll, PollOption, PollVote, User};
use crate::validate::{valid_title, valid_description, rule};
use crate::store::{Store, poll_options_of, vote_in_poll, user_live, user_id_key, option_id_key};
use crate::services::user_service::{has_live_user_id, find_user_by_id};
use crate::services::poll_option_service::{has_option, find_option};
use crate::services::poll_service::{create_poll as new_poll, get_poll, get_poll_options as options_of, get_poll_votes as votes_of, set_title, set_description, delete_poll as remove_poll, has_poll, retitled, redescribed, poll_text_error, not_poll, not_of_poll, vote_not_in_poll};
use crate::routes::json::{PollJSON, PollOptionJSON, PollVoteJSON, PollUserVoteJSON, poll_json, option_json, vote_json, stamp, timestamp};
use crate::util::{get_user_by_session, authorize_poll_edit, auth_error, poll_edit_error, cookie_view};

verus! {

pub struct CreatePollQuery {
    pub title: String,
    pub description: String,
}

pub struct GetPollQuery {
    pub poll_id: i32,
}

pub struct GetPollOptionsQuery {
    pub poll_id: i32,
}

pub struct GetPollVotesQuery {
    pub poll_id: i32,
}

pub struct SetTitleQuery {
    pub poll_id: i32,
    pub title: String,
}

pub struct SetDescriptionQuery {
    pub poll_id: i32,
    pub description: String,
}

pub struct DeletePollQuery {
    pub poll_id: i32,
}

/// Creates a poll owned by the logged-in user.
pub fn create_poll(db: &mut Store, session_id: Option<&String>, query: CreatePollQuery, now: u64) -> (r:
    Result<PollJSON, ServiceError>)
    requires
        old(db).wf(),
    ensures
        final(db).wf(),
        auth_error(*old(db), cookie_view(session_id), now) matches Some(e) ==> r == Err::<
            PollJSON,
            ServiceError,
        >(e) && final(db).same_as(old(db)),
        auth_error(*old(db), cookie_view(session_id), now) is None && poll_text_error(
            query.title@,
            query.description@,
        ) is Some ==> r == Err::<PollJSON, ServiceError>(
            poll_text_error(query.title@, query.description@).unwrap(),
        ),
        auth_error(*old(db), cookie_view(session_id), now) is None && poll_text_error(
            query.title@,
            query.description@,
        ) is None && old(db).next_poll_id < i32::MAX ==> r is Ok,
        r matches Ok(j) ==> exists|p: Poll, i: int|
            0 <= i < old(db).sessions@.len() && #[trigger] old(db).sessions@[i].id@
                == session_id.unwrap()@ && p.id == old(db).next_poll_id && p.user_id
                == old(db).sessions@[i].user_id && p.title
                == query.title && p.description == query.description && p.create_time == now
                && final(db).polls@ == #[trigger] old(db).polls@.push(p) && j == poll_json(p),
        r is Err ==> final(db).polls@ == old(db).polls@,
{
    let user = get_user_by_session(db, session_id, now)?;
    let p = new_poll(db, user.id, query.title, query.description, now)?;
    Ok(PollJSON::from_poll(p))
}

/// The poll `poll_id`.
pub fn get_poll_info(db: &Store, query: GetPollQuery) -> (r: Result<PollJSON, ServiceError>)
    requires
        db.wf(),
    ensures
        r matches Ok(j) ==> exists|i: int|
            0 <= i < db.polls@.len() && #[trigger] db.polls@[i].id == query.poll_id && j == poll_json(
                db.polls@[i],
            ),
        r is Err <==> !has_poll(db.polls@, query.poll_id),
        r is Err ==> r == Err::<PollJSON, ServiceError>(ServiceError::PollNotFound),
{
    let p = get_poll(db, query.poll_id)?;
    Ok(PollJSON::from_poll(p))
}

/// The options of poll `poll_id`.
pub fn get_poll_options(db: &Store, query: GetPollOptionsQuery) -> (r: Vec<PollOptionJSON>)
    ensures
        r@ == poll_options_of(db.poll_options@, query.poll_id).map_values(
            |o: crate::records::PollOption| option_json(o),
        ),
{
    PollOptionJSON::from_options(options_of(db, query.poll_id))
}

/// The votes cast in poll `poll_id`.
pub fn get_poll_votes(db: &Store, query: GetPollVotesQuery) -> (r: Vec<PollVoteJSON>)
    ensures
        r@ == db.poll_votes@.filter(vote_in_poll(query.poll_id)).map_values(
            |v: crate::records::PollVote| vote_json(v),
        ),
{
    PollVoteJSON::from_votes(votes_of(db, query.poll_id))
}

/// The row shown for a vote: the voter's name and the chosen option's text,
/// when the voter's account counts at `now` and the option exists.
pub open spec fn user_vote_row(us: Seq<User>, os: Seq<PollOption>, now: u64) -> spec_fn(PollVote) -> Option<
    PollUserVoteJSON,
> {
    |v: PollVote|
        if has_live_user_id(us, v.user_id, now) && has_option(os, v.poll_option_id) {
            Some(
                PollUserVoteJSON {
                    user_id: v.user_id,
                    username: us[choose|j: int|
                        0 <= j < us.len() && #[trigger] us[j].id == v.user_id && user_live(
                            us[j],
                            now,
                        )].username,
                    poll_option_id: v.poll_option_id,
                    poll_option_value: os[choose|i: int|
                        0 <= i < os.len() && #[trigger] option_id_key()(os[i])
                            == v.poll_option_id].value,
                    vote_time: stamp(v.vote_time),
                },
            )
        } else {
            None
        }
}

/// The votes cast in poll `poll_id`, each with the voter's name and the
/// chosen option's text.
pub fn get_poll_user_votes(db: &Store, query: GetPollVotesQuery, now: u64) -> (r: Vec<PollUserVoteJSON>)
    requires
        db.wf(),
    ensures
        r@ == db.poll_votes@.filter(vote_in_poll(query.poll_id)).filter_map(
            user_vote_row(db.users@, db.poll_options@, now),
        ),
{
    let vs = votes_of(db, query.poll_id);
    let ghost f = user_vote_row(db.users@, db.poll_options@, now);
    let mut out: Vec<PollUserVoteJSON> = Vec::new();
    let mut i: usize = 0;
    while i < vs.len()
        invariant
            db.wf(),
            i <= vs@.len(),
            f == user_vote_row(db.users@, db.poll_options@, now),
            out@ == vs@.take(i as int).filter_map(f),
        decreases vs@.len() - i,
    {
        proof {
            vs@.lemma_filter_map_take_succ(f, i as int);
        }
        let v = &vs[i];
        match (find_user_by_id(&db.users, v.user_id, now), find_option(&db.poll_options, v.poll_option_id)) {
            (Some(j), Some(k)) => {
                let row = PollUserVoteJSON {
                    user_id: v.user_id,
                    username: db.users[j].username.clone(),
                    poll_option_id: v.poll_option_id,
                    poll_option_value: db.poll_options[k].value.clone(),
                    vote_time: timestamp(v.vote_time),
                };
                proof {
                    let us = db.users@;
                    let os = db.poll_options@;
                    assert(has_live_user_id(us, v.user_id, now));
                    assert(option_id_key()(os[k as int]) == v.poll_option_id);
                    let cj = choose|cj: int|
                        0 <= cj < us.len() && #[trigger] us[cj].id == v.user_id && user_live(us[cj], now);
                    let ck = choose|ck: int|
                        0 <= ck < os.len() && #[trigger] option_id_key()(os[ck]) == v.poll_option_id;
                    if cj != j as int {
                        assert(user_id_key()(us[cj]) != user_id_key()(us[j as int]));
                    }
                    if ck != k as int {
                        assert(option_id_key()(os[ck]) != option_id_key()(os[k as int]));
                    }
                    assert(f(vs@[i as int]) == Some(row));
                }
                out.push(row);
            },
            _ => {
                assert(f(vs@[i as int]) is None);
            },
        }
        i += 1;
    }
    assert(vs@.take(vs@.len() as int) =~= vs@);
    out
}

/// Sets the title of a poll of the logged-in user.
pub fn set_poll_title(db: &mut Store, session_id: Option<&String>, query: SetTitleQuery, now: u64) -> (r:
    Result<(), ServiceError>)
    requires
        old(db).wf(),
    ensures
        final(db).wf(),
        poll_edit_error(*old(db), cookie_view(session_id), query.poll_id, now) matches Some(e) ==> r
            == Err::<(), ServiceError>(e) && final(db).same_as(old(db)),
        poll_edit_error(*old(db), cookie_view(session_id), query.poll_id, now) is None ==> r == rule(
            valid_title(query.title@),
            ServiceError::TitleLength,
        ),
        r is Ok ==> final(db).polls@ == retitled(old(db).polls@, query.poll_id, query.title),
        r is Err ==> final(db).polls@ == old(db).polls@,
{
    authorize_poll_edit(db, session_id, query.poll_id, now)?;
    set_title(db, query.poll_id, query.title)
}

/// Sets the description of a poll of the logged-in user.
pub fn set_poll_description(
    db: &mut Store,
    session_id: Option<&String>,
    query: SetDescriptionQuery,
    now: u64,
) -> (r: Result<(), ServiceError>)
    requires
        old(db).wf(),
    ensures
        final(db).wf(),
        poll_edit_error(*old(db), cookie_view(session_id), query.poll_id, now) matches Some(e) ==> r
            == Err::<(), ServiceError>(e) && final(db).same_as(old(db)),
        poll_edit_error(*old(db), cookie_view(session_id), query.poll_id, now) is None ==> r == rule(
            valid_description(query.description@),
            ServiceError::DescriptionLength,
        ),
        r is Ok ==> final(db).polls@ == redescribed(
            old(db).polls@,
            query.poll_id,
            query.description,
        ),
        r is Err ==> final(db).polls@ == old(db).polls@,
{
    authorize_poll_edit(db, session_id, query.poll_id, now)?;
    set_description(db, query.poll_id, query.description)
}

/// Deletes a poll of the logged-in user, with its options and votes.
pub fn delete_poll(db: &mut Store, session_id: Option<&String>, query: DeletePollQuery, now: u64) -> (r:
    Result<(), ServiceError>)
    requires
        old(db).wf(),
    ensures
        final(db).wf(),
        poll_edit_error(*old(db), cookie_view(session_id), query.poll_id, now) matches Some(e) ==> r
            == Err::<(), ServiceError>(e) && final(db).same_as(old(db)),
        poll_edit_error(*old(db), cookie_view(session_id), query.poll_id, now) is None ==> r is Ok,
        r is Ok ==> final(db).polls@ == old(db).polls@.filter(not_poll(query.poll_id))
            && final(db).poll_options@ == old(db).poll_options@.filter(not_of_poll(query.poll_id))
            && final(db).poll_votes@ == old(db).poll_votes@.filter(vote_not_in_poll(query.poll_id)),
{
    authorize_poll_edit(db, session_id, query.poll_id, now)?;
    remove_poll(db, query.poll_id);
    Ok(())
}

} // verus!
