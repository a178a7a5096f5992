//! Polls: creation with validated text, lookups, edits and deletion.
use vstd::prelude::*;
use crate::error::ServiceError;
use crate::records::{Poll, PollOption, PollVote};
use crate::seq_facts::{has_key, lemma_filter_unique, lemma_push_unique, lemma_update_unique, lemma_filter_filter_len, lemma_filter_subset};
use crate::store::{Store, poll_id_key, option_id_key, vote_id_key, ballot_key, of_poll, poll_options_of, vote_in_poll, MAX_POLL_OPTIONS};
use crate::validate::{valid_title, valid_description, rule, check_title, check_description};

verus! {

broadcast use vstd::seq_lib::group_seq_lib_default;

pub open spec fn has_poll(ps: Seq<Poll>, id: i32) -> bool {
    has_key(ps, poll_id_key(), id)
}

/// The polls after giving poll `id` the title `title`.
pub open spec fn retitled(ps: Seq<Poll>, id: i32, title: String) -> Seq<Poll> {
    ps.map_values(|p: Poll| if p.id == id { Poll { title, ..p } } else { p })
}

/// The polls after giving poll `id` the description `description`.
pub open spec fn redescribed(ps: Seq<Poll>, id: i32, description: String) -> Seq<Poll> {
    ps.map_values(|p: Poll| if p.id == id { Poll { description, ..p } } else { p })
}

/// The first rule that a new poll's text breaks.
pub open spec fn poll_text_error(title: Seq<char>, description: Seq<char>) -> Option<ServiceError> {
    if !valid_title(title) {
        Some(ServiceError::TitleLength)
    } else if !valid_description(description) {
        Some(ServiceError::DescriptionLength)
    } else {
        None
    }
}

pub open spec fn not_poll(id: i32) -> spec_fn(Poll) -> bool {
    |p: Poll| p.id != id
}

pub open spec fn not_of_poll(id: i32) -> spec_fn(PollOption) -> bool {
    |o: PollOption| o.poll_id != id
}

pub open spec fn vote_not_in_poll(id: i32) -> spec_fn(PollVote) -> bool {
    |v: PollVote| v.poll_id != id
}

proof fn lemma_delete_poll_keeps_options_in_polls(os: Seq<PollOption>, ps: Seq<Poll>, pid: i32)
    requires
        crate::store::options_in_polls(os, ps),
    ensures
        crate::store::options_in_polls(os.filter(not_of_poll(pid)), ps.filter(not_poll(pid))),
{
    let fo = os.filter(not_of_poll(pid));
    let fp = ps.filter(not_poll(pid));
    assert forall|i: int| 0 <= i < fo.len() implies has_key(fp, poll_id_key(), #[trigger] fo[i].poll_id) by {
        lemma_filter_subset(os, not_of_poll(pid), i);
        let k = choose|k: int| 0 <= k < os.len() && os[k] == fo[i];
        assert(has_key(ps, poll_id_key(), os[k].poll_id));
        let j = choose|j: int| 0 <= j < ps.len() && #[trigger] poll_id_key()(ps[j]) == os[k].poll_id;
        ps.lemma_filter_contains(not_poll(pid), j);
        let m = choose|m: int| 0 <= m < fp.len() && fp[m] == ps[j];
        assert(poll_id_key()(fp[m]) == fo[i].poll_id);
    }
}

pub(crate) fn find_poll(ps: &Vec<Poll>, id: i32) -> (r: Option<usize>)
    ensures
        r matches Some(i) ==> i < ps@.len() && ps@[i as int].id == id,
        r is Some <==> has_poll(ps@, id),
{
    let mut i: usize = 0;
    while i < ps.len()
        invariant
            i <= ps@.len(),
            forall|k: int| 0 <= k < i ==> ps@[k].id != id,
        decreases ps@.len() - i,
    {
        if ps[i].id == id {
            assert(poll_id_key()(ps@[i as int]) == id);
            return Some(i);
        }
        i += 1;
    }
    assert forall|k: int| 0 <= k < ps@.len() implies #[trigger] poll_id_key()(ps@[k]) != id by {
        assert(ps@[k].id != id);
    }
    None
}

/// Creates a poll owned by `user_id`.
pub fn create_poll(db: &mut Store, user_id: i32, title: String, description: String, now: u64) -> (r:
    Result<Poll, ServiceError>)
    requires
        old(db).wf(),
    ensures
        final(db).wf(),
        poll_text_error(title@, description@) matches Some(e) ==> r == Err::<Poll, ServiceError>(e),
        poll_text_error(title@, description@) is None && old(db).next_poll_id == i32::MAX ==> r
            == Err::<Poll, ServiceError>(ServiceError::IdsExhausted),
        poll_text_error(title@, description@) is None && old(db).next_poll_id < i32::MAX ==> r
            == Ok::<Poll, ServiceError>(
            Poll { id: old(db).next_poll_id, user_id, title, description, create_time: now },
        ),
        r matches Ok(p) ==> final(db).polls@ == old(db).polls@.push(p) && final(db).next_poll_id
            == old(db).next_poll_id + 1,
        r is Err ==> final(db).polls@ == old(db).polls@ && final(db).next_poll_id == old(
            db).next_poll_id,
        final(db).poll_options@ == old(db).poll_options@,
        final(db).poll_votes@ == old(db).poll_votes@,
        final(db).next_poll_option_id == old(db).next_poll_option_id,
        final(db).next_poll_vote_id == old(db).next_poll_vote_id,
        final(db).same_users(old(db)),
        final(db).same_sessions(old(db)),
        final(db).same_tokens(old(db)),
{
    check_title(&title)?;
    check_description(&description)?;
    if db.next_poll_id == i32::MAX {
        return Err(ServiceError::IdsExhausted);
    }
    let p = Poll { id: db.next_poll_id, user_id, title, description, create_time: now };
    proof {
        let ps = db.polls@;
        assert(!has_key(ps, poll_id_key(), p.id)) by {
            if has_key(ps, poll_id_key(), p.id) {
                let i = choose|i: int| 0 <= i < ps.len() && #[trigger] poll_id_key()(ps[i]) == p.id;
                assert(ps[i].id < db.next_poll_id);
            }
        }
        lemma_push_unique(ps, poll_id_key(), p);
        crate::store::lemma_options_in_polls_push_poll(db.poll_options@, ps, p);
    }
    db.polls.push(p.cloned());
    db.next_poll_id = db.next_poll_id + 1;
    Ok(p)
}

/// Whether poll `poll_id` exists.
pub fn poll_exists(db: &Store, poll_id: i32) -> (r: bool)
    ensures
        r == has_poll(db.polls@, poll_id),
{
    find_poll(&db.polls, poll_id).is_some()
}

/// The poll `poll_id`.
pub fn get_poll(db: &Store, poll_id: i32) -> (r: Result<Poll, ServiceError>)
    requires
        db.wf(),
    ensures
        r matches Ok(p) ==> db.polls@.contains(p) && p.id == poll_id,
        r is Err <==> !has_poll(db.polls@, poll_id),
        r is Err ==> r == Err::<Poll, ServiceError>(ServiceError::PollNotFound),
{
    match find_poll(&db.polls, poll_id) {
        Some(i) => Ok(db.polls[i].cloned()),
        None => Err(ServiceError::PollNotFound),
    }
}

/// The options of poll `poll_id`, in order of creation.
pub fn get_poll_options(db: &Store, poll_id: i32) -> (r: Vec<PollOption>)
    ensures
        r@ == poll_options_of(db.poll_options@, poll_id),
{
    let os = &db.poll_options;
    let mut out: Vec<PollOption> = Vec::new();
    let mut i: usize = 0;
    while i < os.len()
        invariant
            i <= os@.len(),
            out@ == os@.take(i as int).filter(of_poll(poll_id)),
        decreases os@.len() - i,
    {
        proof {
            assert(os@.take(i + 1) == os@.take(i as int).push(os@[i as int]));
            os@.take(i as int).lemma_filter_push(os@[i as int], of_poll(poll_id));
        }
        if os[i].poll_id == poll_id {
            out.push(os[i].cloned());
        }
        i += 1;
    }
    proof {
        assert(os@.take(os@.len() as int) == os@);
    }
    out
}

/// The votes cast in poll `poll_id`.
pub fn get_poll_votes(db: &Store, poll_id: i32) -> (r: Vec<PollVote>)
    ensures
        r@ == db.poll_votes@.filter(vote_in_poll(poll_id)),
{
    let vs = &db.poll_votes;
    let mut out: Vec<PollVote> = Vec::new();
    let mut i: usize = 0;
    while i < vs.len()
        invariant
            i <= vs@.len(),
            out@ == vs@.take(i as int).filter(vote_in_poll(poll_id)),
        decreases vs@.len() - i,
    {
        proof {
            assert(vs@.take(i + 1) == vs@.take(i as int).push(vs@[i as int]));
            vs@.take(i as int).lemma_filter_push(vs@[i as int], vote_in_poll(poll_id));
        }
        if vs[i].poll_id == poll_id {
            out.push(vs[i].cloned());
        }
        i += 1;
    }
    proof {
        assert(vs@.take(vs@.len() as int) == vs@);
    }
    out
}

/// Applies a new title (when `is_title`) or description to poll `id`.
fn edit_poll(db: &mut Store, poll_id: i32, text: String, is_title: bool)
    requires
        old(db).wf(),
    ensures
        final(db).wf(),
        is_title ==> final(db).polls@ == retitled(old(db).polls@, poll_id, text),
        !is_title ==> final(db).polls@ == redescribed(old(db).polls@, poll_id, text),
        final(db).poll_options@ == old(db).poll_options@,
        final(db).poll_votes@ == old(db).poll_votes@,
        final(db).next_poll_id == old(db).next_poll_id,
        final(db).next_poll_option_id == old(db).next_poll_option_id,
        final(db).next_poll_vote_id == old(db).next_poll_vote_id,
        final(db).same_users(old(db)),
        final(db).same_sessions(old(db)),
        final(db).same_tokens(old(db)),
{
    let ghost ps = db.polls@;
    let ghost t = text;
    match find_poll(&db.polls, poll_id) {
        None => {
            proof {
                assert forall|k: int| 0 <= k < ps.len() implies ps[k].id != poll_id by {
                    if ps[k].id == poll_id {
                        assert(poll_id_key()(ps[k]) == poll_id);
                    }
                }
            }
            assert(db.polls@ =~= retitled(ps, poll_id, t));
            assert(db.polls@ =~= redescribed(ps, poll_id, t));
        },
        Some(j) => {
            let mut p = db.polls[j].cloned();
            if is_title {
                p.title = text;
            } else {
                p.description = text;
            }
            proof {
                lemma_update_unique(ps, poll_id_key(), j as int, p);
                crate::store::lemma_options_in_polls_update_poll(db.poll_options@, ps, j as int, p);
                assert forall|k: int| 0 <= k < ps.len() && k != j implies ps[k].id != poll_id by {
                    assert(poll_id_key()(ps[k]) != poll_id_key()(ps[j as int]));
                }
            }
            db.polls.set(j, p);
            if is_title {
                assert(db.polls@ =~= retitled(ps, poll_id, t));
            } else {
                assert(db.polls@ =~= redescribed(ps, poll_id, t));
            }
        },
    }
}

/// Sets the title of poll `poll_id`; nothing changes when there is no such poll.
pub fn set_title(db: &mut Store, poll_id: i32, title: String) -> (r: Result<(), ServiceError>)
    requires
        old(db).wf(),
    ensures
        final(db).wf(),
        r == rule(valid_title(title@), ServiceError::TitleLength),
        r is Ok ==> final(db).polls@ == retitled(old(db).polls@, poll_id, title),
        r is Err ==> final(db).polls@ == old(db).polls@,
        final(db).poll_options@ == old(db).poll_options@,
        final(db).poll_votes@ == old(db).poll_votes@,
        final(db).next_poll_id == old(db).next_poll_id,
        final(db).next_poll_option_id == old(db).next_poll_option_id,
        final(db).next_poll_vote_id == old(db).next_poll_vote_id,
        final(db).same_users(old(db)),
        final(db).same_sessions(old(db)),
        final(db).same_tokens(old(db)),
{
    check_title(&title)?;
    edit_poll(db, poll_id, title, true);
    Ok(())
}

/// Sets the description of poll `poll_id`; nothing changes when there is no
/// such poll.
pub fn set_description(db: &mut Store, poll_id: i32, description: String) -> (r: Result<
    (),
    ServiceError,
>)
    requires
        old(db).wf(),
    ensures
        final(db).wf(),
        r == rule(valid_description(description@), ServiceError::DescriptionLength),
        r is Ok ==> final(db).polls@ == redescribed(old(db).polls@, poll_id, description),
        r is Err ==> final(db).polls@ == old(db).polls@,
        final(db).poll_options@ == old(db).poll_options@,
        final(db).poll_votes@ == old(db).poll_votes@,
        final(db).next_poll_id == old(db).next_poll_id,
        final(db).next_poll_option_id == old(db).next_poll_option_id,
        final(db).next_poll_vote_id == old(db).next_poll_vote_id,
        final(db).same_users(old(db)),
        final(db).same_sessions(old(db)),
        final(db).same_tokens(old(db)),
{
    check_description(&description)?;
    edit_poll(db, poll_id, description, false);
    Ok(())
}

/// Deletes poll `poll_id` with its options and votes.
pub fn delete_poll(db: &mut Store, poll_id: i32)
    requires
        old(db).wf(),
    ensures
        final(db).wf(),
        final(db).polls@ == old(db).polls@.filter(not_poll(poll_id)),
        final(db).poll_options@ == old(db).poll_options@.filter(not_of_poll(poll_id)),
        final(db).poll_votes@ == old(db).poll_votes@.filter(vote_not_in_poll(poll_id)),
        final(db).next_poll_id == old(db).next_poll_id,
        final(db).next_poll_option_id == old(db).next_poll_option_id,
        final(db).next_poll_vote_id == old(db).next_poll_vote_id,
        final(db).same_users(old(db)),
        final(db).same_sessions(old(db)),
        final(db).same_tokens(old(db)),
{
    let ps = &db.polls;
    let mut kept_polls: Vec<Poll> = Vec::new();
    let mut i: usize = 0;
    while i < ps.len()
        invariant
            i <= ps@.len(),
            kept_polls@ == ps@.take(i as int).filter(not_poll(poll_id)),
        decreases ps@.len() - i,
    {
        proof {
            assert(ps@.take(i + 1) == ps@.take(i as int).push(ps@[i as int]));
            ps@.take(i as int).lemma_filter_push(ps@[i as int], not_poll(poll_id));
        }
        if ps[i].id != poll_id {
            kept_polls.push(ps[i].cloned());
        }
        i += 1;
    }
    let os = &db.poll_options;
    let mut kept_options: Vec<PollOption> = Vec::new();
    let mut i: usize = 0;
    while i < os.len()
        invariant
            i <= os@.len(),
            kept_options@ == os@.take(i as int).filter(not_of_poll(poll_id)),
        decreases os@.len() - i,
    {
        proof {
            assert(os@.take(i + 1) == os@.take(i as int).push(os@[i as int]));
            os@.take(i as int).lemma_filter_push(os@[i as int], not_of_poll(poll_id));
        }
        if os[i].poll_id != poll_id {
            kept_options.push(os[i].cloned());
        }
        i += 1;
    }
    let vs = &db.poll_votes;
    let mut kept_votes: Vec<PollVote> = Vec::new();
    let mut i: usize = 0;
    while i < vs.len()
        invariant
            i <= vs@.len(),
            kept_votes@ == vs@.take(i as int).filter(vote_not_in_poll(poll_id)),
        decreases vs@.len() - i,
    {
        proof {
            assert(vs@.take(i + 1) == vs@.take(i as int).push(vs@[i as int]));
            vs@.take(i as int).lemma_filter_push(vs@[i as int], vote_not_in_poll(poll_id));
        }
        if vs[i].poll_id != poll_id {
            kept_votes.push(vs[i].cloned());
        }
        i += 1;
    }
    proof {
        assert(ps@.take(ps@.len() as int) == ps@);
        assert(os@.take(os@.len() as int) == os@);
        assert(vs@.take(vs@.len() as int) == vs@);
        let np = not_poll(poll_id);
        let no = not_of_poll(poll_id);
        let nv = vote_not_in_poll(poll_id);
        lemma_filter_unique(ps@, poll_id_key(), np);
        lemma_delete_poll_keeps_options_in_polls(os@, ps@, poll_id);
        assert forall|k: int| 0 <= k < ps@.filter(np).len() implies #[trigger] ps@.filter(np)[k].id
            < db.next_poll_id by {
            lemma_filter_subset(ps@, np, k);
        }
        lemma_filter_unique(os@, option_id_key(), no);
        assert forall|k: int| 0 <= k < os@.filter(no).len() implies #[trigger] os@.filter(no)[k].id
            < db.next_poll_option_id by {
            lemma_filter_subset(os@, no, k);
        }
        assert forall|pid: i32| #[trigger] poll_options_of(os@.filter(no), pid).len()
            <= MAX_POLL_OPTIONS by {
            lemma_filter_filter_len(os@, no, of_poll(pid));
            assert(poll_options_of(os@, pid).len() <= MAX_POLL_OPTIONS);
        }
        lemma_filter_unique(vs@, vote_id_key(), nv);
        lemma_filter_unique(vs@, ballot_key(), nv);
        assert forall|k: int| 0 <= k < vs@.filter(nv).len() implies #[trigger] vs@.filter(nv)[k].id
            < db.next_poll_vote_id by {
            lemma_filter_subset(vs@, nv, k);
        }
    }
    db.polls = kept_polls;
    db.poll_options = kept_options;
    db.poll_votes = kept_votes;
}

} // verus!
