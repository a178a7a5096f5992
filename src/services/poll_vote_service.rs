//! Votes: one ballot per user and poll; voting again replaces the ballot.
use vstd::prelude::*;
use crate::error::ServiceError;
use crate::records::{Poll, PollVote};
use crate::seq_facts::{has_key, lemma_filter_unique, lemma_push_unique, lemma_filter_subset, lemma_filter_none};
use crate::store::{Store, vote_id_key, ballot_key, ballot_of};
use crate::services::poll_service::find_poll;
use crate::services::poll_option_service::has_option;

verus! {

broadcast use vstd::seq_lib::group_seq_lib_default;

pub open spec fn has_vote(vs: Seq<PollVote>, id: i32) -> bool {
    has_key(vs, vote_id_key(), id)
}

pub open spec fn has_ballot(vs: Seq<PollVote>, user_id: i32, poll_id: i32) -> bool {
    has_key(vs, ballot_key(), (user_id, poll_id))
}

/// Vote `id` exists and so does its poll.
pub open spec fn vote_poll_exists(vs: Seq<PollVote>, ps: Seq<Poll>, id: i32) -> bool {
    exists|i: int, j: int|
        0 <= i < vs.len() && 0 <= j < ps.len() && #[trigger] vs[i].id == id && #[trigger] ps[j].id
            == vs[i].poll_id
}

pub open spec fn not_ballot(user_id: i32, poll_id: i32) -> spec_fn(PollVote) -> bool {
    |v: PollVote| !(v.user_id == user_id && v.poll_id == poll_id)
}

pub open spec fn not_choice(user_id: i32, option_id: i32) -> spec_fn(PollVote) -> bool {
    |v: PollVote| !(v.user_id == user_id && v.poll_option_id == option_id)
}

/// The votes after `v` replaces the ballot of its user in its poll.
pub open spec fn cast(vs: Seq<PollVote>, v: PollVote) -> Seq<PollVote> {
    vs.filter(not_ballot(v.user_id, v.poll_id)).push(v)
}

/// After a vote, the voter's ballot in that poll is exactly that vote.
pub proof fn lemma_cast_leaves_one_ballot(vs: Seq<PollVote>, v: PollVote)
    ensures
        cast(vs, v).filter(ballot_of(v.user_id, v.poll_id)) == seq![v],
{
    let f = vs.filter(not_ballot(v.user_id, v.poll_id));
    assert forall|i: int| 0 <= i < f.len() implies !ballot_of(v.user_id, v.poll_id)(#[trigger] f[i]) by {
        vs.lemma_filter_pred(not_ballot(v.user_id, v.poll_id), i);
    }
    lemma_filter_none(f, ballot_of(v.user_id, v.poll_id));
    f.lemma_filter_push(v, ballot_of(v.user_id, v.poll_id));
    assert(Seq::<PollVote>::empty().push(v) =~= seq![v]);
}

/// Voting twice in one poll leaves one ballot, for the later choice.
pub proof fn lemma_revote_replaces(vs: Seq<PollVote>, first: PollVote, second: PollVote)
    requires
        first.user_id == second.user_id,
        first.poll_id == second.poll_id,
    ensures
        cast(cast(vs, first), second).filter(ballot_of(second.user_id, second.poll_id)) == seq![
            second,
        ],
{
    lemma_cast_leaves_one_ballot(cast(vs, first), second);
}

fn find_vote(vs: &Vec<PollVote>, id: i32) -> (r: Option<usize>)
    ensures
        r matches Some(i) ==> i < vs@.len() && vs@[i as int].id == id,
        r is Some <==> has_vote(vs@, id),
{
    let mut i: usize = 0;
    while i < vs.len()
        invariant
            i <= vs@.len(),
            forall|k: int| 0 <= k < i ==> vs@[k].id != id,
        decreases vs@.len() - i,
    {
        if vs[i].id == id {
            assert(vote_id_key()(vs@[i as int]) == id);
            return Some(i);
        }
        i += 1;
    }
    assert forall|k: int| 0 <= k < vs@.len() implies #[trigger] vote_id_key()(vs@[k]) != id by {
        assert(vs@[k].id != id);
    }
    None
}

fn find_ballot(vs: &Vec<PollVote>, user_id: i32, poll_id: i32) -> (r: Option<usize>)
    ensures
        r matches Some(i) ==> i < vs@.len() && vs@[i as int].user_id == user_id
            && vs@[i as int].poll_id == poll_id,
        r is Some <==> has_ballot(vs@, user_id, poll_id),
{
    let mut i: usize = 0;
    while i < vs.len()
        invariant
            i <= vs@.len(),
            forall|k: int| 0 <= k < i ==> !(vs@[k].user_id == user_id && vs@[k].poll_id == poll_id),
        decreases vs@.len() - i,
    {
        if vs[i].user_id == user_id && vs[i].poll_id == poll_id {
            assert(ballot_key()(vs@[i as int]) == (user_id, poll_id));
            return Some(i);
        }
        i += 1;
    }
    assert forall|k: int| 0 <= k < vs@.len() implies #[trigger] ballot_key()(vs@[k]) != (
        user_id,
        poll_id,
    ) by {
        assert(!(vs@[k].user_id == user_id && vs@[k].poll_id == poll_id));
    }
    None
}

/// Whether `user_id` has a ballot in poll `poll_id`.
pub fn poll_vote_exists(db: &Store, user_id: i32, poll_id: i32) -> (r: bool)
    ensures
        r == has_ballot(db.poll_votes@, user_id, poll_id),
{
    find_ballot(&db.poll_votes, user_id, poll_id).is_some()
}

/// The ballot of `user_id` in poll `poll_id`.
pub fn get_poll_vote(db: &Store, user_id: i32, poll_id: i32) -> (r: Result<PollVote, ServiceError>)
    requires
        db.wf(),
    ensures
        r matches Ok(v) ==> db.poll_votes@.contains(v) && v.user_id == user_id && v.poll_id == poll_id,
        r is Err <==> !has_ballot(db.poll_votes@, user_id, poll_id),
        r is Err ==> r == Err::<PollVote, ServiceError>(ServiceError::PollVoteNotFound),
{
    match find_ballot(&db.poll_votes, user_id, poll_id) {
        Some(i) => Ok(db.poll_votes[i].cloned()),
        None => Err(ServiceError::PollVoteNotFound),
    }
}

/// The vote `poll_vote_id`.
pub fn get_poll_vote_by_vote_id(db: &Store, poll_vote_id: i32) -> (r: Result<PollVote, ServiceError>)
    requires
        db.wf(),
    ensures
        r matches Ok(v) ==> db.poll_votes@.contains(v) && v.id == poll_vote_id,
        r is Err <==> !has_vote(db.poll_votes@, poll_vote_id),
        r is Err ==> r == Err::<PollVote, ServiceError>(ServiceError::PollVoteNotFound),
{
    match find_vote(&db.poll_votes, poll_vote_id) {
        Some(i) => Ok(db.poll_votes[i].cloned()),
        None => Err(ServiceError::PollVoteNotFound),
    }
}

/// The poll that vote `poll_vote_id` was cast in.
pub fn get_poll_vote_poll(db: &Store, poll_vote_id: i32) -> (r: Result<Poll, ServiceError>)
    requires
        db.wf(),
    ensures
        r matches Ok(p) ==> db.polls@.contains(p) && exists|i: int|
            0 <= i < db.poll_votes@.len() && #[trigger] db.poll_votes@[i].id == poll_vote_id
                && db.poll_votes@[i].poll_id == p.id,
        r is Ok <==> vote_poll_exists(db.poll_votes@, db.polls@, poll_vote_id),
        !has_vote(db.poll_votes@, poll_vote_id) ==> r == Err::<Poll, ServiceError>(
            ServiceError::PollVoteNotFound,
        ),
        has_vote(db.poll_votes@, poll_vote_id) && r is Err ==> r == Err::<Poll, ServiceError>(
            ServiceError::PollNotFound,
        ),
{
    let vs = &db.poll_votes;
    let i = match find_vote(vs, poll_vote_id) {
        Some(i) => i,
        None => {
            proof {
                assert forall|a: int, b: int|
                    0 <= a < vs@.len() && 0 <= b < db.polls@.len() && #[trigger] vs@[a].id
                        == poll_vote_id implies #[trigger] db.polls@[b].id != vs@[a].poll_id by {
                    assert(vote_id_key()(vs@[a]) == poll_vote_id);
                }
            }
            return Err(ServiceError::PollVoteNotFound);
        },
    };
    match find_poll(&db.polls, vs[i].poll_id) {
        Some(j) => {
            assert(vs@[i as int].id == poll_vote_id);
            Ok(db.polls[j].cloned())
        },
        None => {
            proof {
                let ps = db.polls@;
                assert forall|a: int, b: int|
                    0 <= a < vs@.len() && 0 <= b < ps.len() && #[trigger] vs@[a].id == poll_vote_id
                        implies #[trigger] ps[b].id != vs@[a].poll_id by {
                    if a != i as int {
                        assert(vote_id_key()(vs@[a]) != vote_id_key()(vs@[i as int]));
                    }
                    if ps[b].id == vs@[a].poll_id {
                        assert(crate::store::poll_id_key()(ps[b]) == vs@[i as int].poll_id);
                    }
                }
            }
            Err(ServiceError::PollNotFound)
        },
    }
}

/// Keeps the votes that pass `not_ballot(user_id, key)`, or
/// `not_choice(user_id, key)` when `by_option` holds.
fn retain_votes(vs: &Vec<PollVote>, user_id: i32, key: i32, by_option: bool) -> (r: Vec<PollVote>)
    ensures
        !by_option ==> r@ == vs@.filter(not_ballot(user_id, key)),
        by_option ==> r@ == vs@.filter(not_choice(user_id, key)),
{
    let ghost p = if by_option { not_choice(user_id, key) } else { not_ballot(user_id, key) };
    let mut out: Vec<PollVote> = Vec::new();
    let mut i: usize = 0;
    while i < vs.len()
        invariant
            i <= vs@.len(),
            p == if by_option { not_choice(user_id, key) } else { not_ballot(user_id, key) },
            out@ == vs@.take(i as int).filter(p),
        decreases vs@.len() - i,
    {
        proof {
            assert(vs@.take(i + 1) == vs@.take(i as int).push(vs@[i as int]));
            vs@.take(i as int).lemma_filter_push(vs@[i as int], p);
        }
        let keep = if by_option {
            !(vs[i].user_id == user_id && vs[i].poll_option_id == key)
        } else {
            !(vs[i].user_id == user_id && vs[i].poll_id == key)
        };
        if keep {
            out.push(vs[i].cloned());
        }
        i += 1;
    }
    proof {
        assert(vs@.take(vs@.len() as int) == vs@);
    }
    out
}

proof fn lemma_retain_votes_wf(vs: Seq<PollVote>, next_id: i32, p: spec_fn(PollVote) -> bool)
    requires
        crate::store::votes_wf(vs, next_id),
    ensures
        crate::store::votes_wf(vs.filter(p), next_id),
{
    lemma_filter_unique(vs, vote_id_key(), p);
    lemma_filter_unique(vs, ballot_key(), p);
    assert forall|k: int| 0 <= k < vs.filter(p).len() implies #[trigger] vs.filter(p)[k].id
        < next_id by {
        lemma_filter_subset(vs, p, k);
    }
}

/// Withdraws the ballot of `user_id` in poll `poll_id`, if any.
pub fn unvote(db: &mut Store, user_id: i32, poll_id: i32)
    requires
        old(db).wf(),
    ensures
        final(db).wf(),
        final(db).poll_votes@ == old(db).poll_votes@.filter(not_ballot(user_id, poll_id)),
        final(db).polls@ == old(db).polls@,
        final(db).poll_options@ == old(db).poll_options@,
        final(db).next_poll_id == old(db).next_poll_id,
        final(db).next_poll_option_id == old(db).next_poll_option_id,
        final(db).next_poll_vote_id == old(db).next_poll_vote_id,
        final(db).same_users(old(db)),
        final(db).same_sessions(old(db)),
        final(db).same_tokens(old(db)),
{
    let kept = retain_votes(&db.poll_votes, user_id, poll_id, false);
    proof {
        lemma_retain_votes_wf(db.poll_votes@, db.next_poll_vote_id, not_ballot(user_id, poll_id));
    }
    db.poll_votes = kept;
}

/// Withdraws the votes of `user_id` for option `poll_option_id`, if any.
pub fn unvote_by_poll_option_id(db: &mut Store, user_id: i32, poll_option_id: i32)
    requires
        old(db).wf(),
    ensures
        final(db).wf(),
        final(db).poll_votes@ == old(db).poll_votes@.filter(not_choice(user_id, poll_option_id)),
        final(db).polls@ == old(db).polls@,
        final(db).poll_options@ == old(db).poll_options@,
        final(db).next_poll_id == old(db).next_poll_id,
        final(db).next_poll_option_id == old(db).next_poll_option_id,
        final(db).next_poll_vote_id == old(db).next_poll_vote_id,
        final(db).same_users(old(db)),
        final(db).same_sessions(old(db)),
        final(db).same_tokens(old(db)),
{
    let kept = retain_votes(&db.poll_votes, user_id, poll_option_id, true);
    proof {
        lemma_retain_votes_wf(
            db.poll_votes@,
            db.next_poll_vote_id,
            not_choice(user_id, poll_option_id),
        );
    }
    db.poll_votes = kept;
}

/// Casts the vote of `user_id` for option `poll_option_id`, replacing any
/// ballot that user had in the option's poll. Nothing changes on failure.
pub fn vote(db: &mut Store, user_id: i32, poll_option_id: i32, now: u64) -> (r: Result<
    PollVote,
    ServiceError,
>)
    requires
        old(db).wf(),
    ensures
        final(db).wf(),
        !has_option(old(db).poll_options@, poll_option_id) ==> r == Err::<PollVote, ServiceError>(
            ServiceError::PollOptionNotFound,
        ),
        has_option(old(db).poll_options@, poll_option_id) && old(
            db).next_poll_vote_id == i32::MAX ==> r == Err::<PollVote, ServiceError>(
            ServiceError::IdsExhausted,
        ),
        has_option(old(db).poll_options@, poll_option_id) && old(db).next_poll_vote_id < i32::MAX
            ==> r is Ok,
        r matches Ok(v) ==> {
            &&& v == PollVote {
                id: old(db).next_poll_vote_id,
                user_id,
                poll_id: v.poll_id,
                poll_option_id,
                vote_time: now,
            }
            &&& exists|i: int|
                0 <= i < old(db).poll_options@.len() && #[trigger] old(db).poll_options@[i].id
                    == poll_option_id && old(db).poll_options@[i].poll_id == v.poll_id
            &&& final(db).poll_votes@ == cast(old(db).poll_votes@, v)
            &&& final(db).poll_votes@.filter(ballot_of(user_id, v.poll_id)) == seq![v]
            &&& final(db).next_poll_vote_id == old(db).next_poll_vote_id + 1
        },
        r is Err ==> final(db).poll_votes@ == old(db).poll_votes@ && final(db).next_poll_vote_id
            == old(db).next_poll_vote_id,
        final(db).polls@ == old(db).polls@,
        final(db).poll_options@ == old(db).poll_options@,
        final(db).next_poll_id == old(db).next_poll_id,
        final(db).next_poll_option_id == old(db).next_poll_option_id,
        final(db).same_users(old(db)),
        final(db).same_sessions(old(db)),
        final(db).same_tokens(old(db)),
{
    let poll = match crate::services::poll_option_service::get_poll_option_poll(db, poll_option_id) {
        Ok(p) => p,
        Err(e) => {
            return Err(e);
        },
    };
    if db.next_poll_vote_id == i32::MAX {
        return Err(ServiceError::IdsExhausted);
    }
    let v = PollVote {
        id: db.next_poll_vote_id,
        user_id,
        poll_id: poll.id,
        poll_option_id,
        vote_time: now,
    };
    unvote(db, user_id, poll.id);
    proof {
        let vs = db.poll_votes@;
        assert(!has_key(vs, vote_id_key(), v.id)) by {
            if has_key(vs, vote_id_key(), v.id) {
                let i = choose|i: int| 0 <= i < vs.len() && #[trigger] vote_id_key()(vs[i]) == v.id;
                assert(vs[i].id < db.next_poll_vote_id);
            }
        }
        assert(!has_key(vs, ballot_key(), (user_id, poll.id))) by {
            if has_key(vs, ballot_key(), (user_id, poll.id)) {
                let i = choose|i: int|
                    0 <= i < vs.len() && #[trigger] ballot_key()(vs[i]) == (user_id, poll.id);
                old(db).poll_votes@.lemma_filter_pred(not_ballot(user_id, poll.id), i);
            }
        }
        lemma_push_unique(vs, vote_id_key(), v);
        lemma_push_unique(vs, ballot_key(), v);
        lemma_cast_leaves_one_ballot(old(db).poll_votes@, v);
    }
    db.poll_votes.push(v.cloned());
    db.next_poll_vote_id = db.next_poll_vote_id + 1;
    Ok(v)
}

} // verus!
