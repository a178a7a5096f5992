//! Poll options: at most `MAX_POLL_OPTIONS` per poll, with validated text.
use vstd::prelude::*;
use crate::error::ServiceError;
use crate::records::{Poll, PollOption, PollVote};
use crate::seq_facts::{has_key, lemma_filter_unique, lemma_push_unique, lemma_update_unique, lemma_filter_filter_len, lemma_filter_subset};
use crate::store::{Store, option_id_key, vote_id_key, ballot_key, of_poll, poll_options_of, MAX_POLL_OPTIONS};
use crate::validate::{valid_option_value, rule, check_option_value};
use crate::services::poll_service::{has_poll, find_poll};

verus! {

broadcast use vstd::seq_lib::group_seq_lib_default;

pub open spec fn has_option(os: Seq<PollOption>, id: i32) -> bool {
    has_key(os, option_id_key(), id)
}

/// Option `id` exists and so does its poll.
pub open spec fn option_poll_exists(os: Seq<PollOption>, ps: Seq<Poll>, id: i32) -> bool {
    exists|i: int, j: int|
        0 <= i < os.len() && 0 <= j < ps.len() && #[trigger] os[i].id == id && #[trigger] ps[j].id
            == os[i].poll_id
}

/// The options after giving option `id` the text `value`.
pub open spec fn revalued(os: Seq<PollOption>, id: i32, value: String) -> Seq<PollOption> {
    os.map_values(|o: PollOption| if o.id == id { PollOption { value, ..o } } else { o })
}

pub open spec fn not_option(id: i32) -> spec_fn(PollOption) -> bool {
    |o: PollOption| o.id != id
}

pub open spec fn vote_not_for_option(id: i32) -> spec_fn(PollVote) -> bool {
    |v: PollVote| v.poll_option_id != id
}

/// In a well-formed store an existing option leads to its poll.
pub proof fn lemma_option_has_poll(os: Seq<PollOption>, ps: Seq<Poll>, id: i32)
    requires
        crate::store::options_in_polls(os, ps),
    ensures
        has_option(os, id) ==> option_poll_exists(os, ps, id),
{
    if has_option(os, id) {
        let i = choose|i: int| 0 <= i < os.len() && #[trigger] option_id_key()(os[i]) == id;
        assert(has_key(ps, crate::store::poll_id_key(), os[i].poll_id));
        let j = choose|j: int|
            0 <= j < ps.len() && #[trigger] crate::store::poll_id_key()(ps[j]) == os[i].poll_id;
        assert(os[i].id == id && ps[j].id == os[i].poll_id);
    }
}

pub(crate) fn find_option(os: &Vec<PollOption>, id: i32) -> (r: Option<usize>)
    ensures
        r matches Some(i) ==> i < os@.len() && os@[i as int].id == id,
        r is Some <==> has_option(os@, id),
{
    let mut i: usize = 0;
    while i < os.len()
        invariant
            i <= os@.len(),
            forall|k: int| 0 <= k < i ==> os@[k].id != id,
        decreases os@.len() - i,
    {
        if os[i].id == id {
            assert(option_id_key()(os@[i as int]) == id);
            return Some(i);
        }
        i += 1;
    }
    assert forall|k: int| 0 <= k < os@.len() implies #[trigger] option_id_key()(os@[k]) != id by {
        assert(os@[k].id != id);
    }
    None
}

/// The number of options of poll `poll_id`.
pub fn get_num_poll_options(db: &Store, poll_id: i32) -> (r: usize)
    ensures
        r == poll_options_of(db.poll_options@, poll_id).len(),
{
    let os = &db.poll_options;
    let mut n: usize = 0;
    let mut i: usize = 0;
    while i < os.len()
        invariant
            i <= os@.len(),
            n == os@.take(i as int).filter(of_poll(poll_id)).len(),
        decreases os@.len() - i,
    {
        proof {
            assert(os@.take(i + 1) == os@.take(i as int).push(os@[i as int]));
            os@.take(i as int).lemma_filter_push(os@[i as int], of_poll(poll_id));
            os@.take(i as int).lemma_filter_len(of_poll(poll_id));
        }
        if os[i].poll_id == poll_id {
            n += 1;
        }
        i += 1;
    }
    proof {
        assert(os@.take(os@.len() as int) == os@);
    }
    n
}

/// Adds an option with text `value` to poll `poll_id`. A poll that already
/// has `MAX_POLL_OPTIONS` options takes no more. The count is checked first,
/// then the text, then that the poll exists.
pub fn create_poll_option(db: &mut Store, poll_id: i32, value: String) -> (r: Result<
    PollOption,
    ServiceError,
>)
    requires
        old(db).wf(),
    ensures
        final(db).wf(),
        poll_options_of(old(db).poll_options@, poll_id).len() >= MAX_POLL_OPTIONS ==> r == Err::<
            PollOption,
            ServiceError,
        >(ServiceError::TooManyOptions),
        poll_options_of(old(db).poll_options@, poll_id).len() < MAX_POLL_OPTIONS
            && !valid_option_value(value@) ==> r == Err::<PollOption, ServiceError>(
            ServiceError::OptionValueLength,
        ),
        poll_options_of(old(db).poll_options@, poll_id).len() < MAX_POLL_OPTIONS
            && valid_option_value(value@) && !has_poll(old(db).polls@, poll_id) ==> r == Err::<
            PollOption,
            ServiceError,
        >(ServiceError::PollNotFound),
        has_poll(old(db).polls@, poll_id) && poll_options_of(old(db).poll_options@, poll_id).len()
            < MAX_POLL_OPTIONS && valid_option_value(value@) && old(db).next_poll_option_id
            == i32::MAX ==> r == Err::<PollOption, ServiceError>(ServiceError::IdsExhausted),
        has_poll(old(db).polls@, poll_id) && poll_options_of(old(db).poll_options@, poll_id).len()
            < MAX_POLL_OPTIONS && valid_option_value(value@) && old(db).next_poll_option_id
            < i32::MAX ==> r == Ok::<PollOption, ServiceError>(
            PollOption { id: old(db).next_poll_option_id, poll_id, value },
        ),
        r matches Ok(o) ==> final(db).poll_options@ == old(db).poll_options@.push(o) && final(
            db).next_poll_option_id == old(db).next_poll_option_id + 1,
        r is Err ==> final(db).poll_options@ == old(db).poll_options@ && final(
            db).next_poll_option_id == old(db).next_poll_option_id,
        final(db).polls@ == old(db).polls@,
        final(db).poll_votes@ == old(db).poll_votes@,
        final(db).next_poll_id == old(db).next_poll_id,
        final(db).next_poll_vote_id == old(db).next_poll_vote_id,
        final(db).same_users(old(db)),
        final(db).same_sessions(old(db)),
        final(db).same_tokens(old(db)),
{
    if get_num_poll_options(db, poll_id) >= MAX_POLL_OPTIONS {
        return Err(ServiceError::TooManyOptions);
    }
    check_option_value(&value)?;
    if find_poll(&db.polls, poll_id).is_none() {
        return Err(ServiceError::PollNotFound);
    }
    if db.next_poll_option_id == i32::MAX {
        return Err(ServiceError::IdsExhausted);
    }
    let o = PollOption { id: db.next_poll_option_id, poll_id, value };
    proof {
        let os = db.poll_options@;
        assert(!has_key(os, option_id_key(), o.id)) by {
            if has_key(os, option_id_key(), o.id) {
                let i = choose|i: int| 0 <= i < os.len() && #[trigger] option_id_key()(os[i]) == o.id;
                assert(os[i].id < db.next_poll_option_id);
            }
        }
        lemma_push_unique(os, option_id_key(), o);
        assert forall|pid: i32| #[trigger] poll_options_of(os.push(o), pid).len()
            <= MAX_POLL_OPTIONS by {
            os.lemma_filter_push(o, of_poll(pid));
            assert(poll_options_of(os, pid).len() <= MAX_POLL_OPTIONS);
        }
    }
    db.poll_options.push(o.cloned());
    db.next_poll_option_id = db.next_poll_option_id + 1;
    Ok(o)
}

/// Whether option `poll_option_id` exists.
pub fn poll_option_exists(db: &Store, poll_option_id: i32) -> (r: bool)
    ensures
        r == has_option(db.poll_options@, poll_option_id),
{
    find_option(&db.poll_options, poll_option_id).is_some()
}

/// The option `poll_option_id`.
pub fn get_poll_option(db: &Store, poll_option_id: i32) -> (r: Result<PollOption, ServiceError>)
    requires
        db.wf(),
    ensures
        r matches Ok(o) ==> db.poll_options@.contains(o) && o.id == poll_option_id,
        r is Err <==> !has_option(db.poll_options@, poll_option_id),
        r is Err ==> r == Err::<PollOption, ServiceError>(ServiceError::PollOptionNotFound),
{
    match find_option(&db.poll_options, poll_option_id) {
        Some(i) => Ok(db.poll_options[i].cloned()),
        None => Err(ServiceError::PollOptionNotFound),
    }
}

/// The poll that option `poll_option_id` belongs to.
pub fn get_poll_option_poll(db: &Store, poll_option_id: i32) -> (r: Result<Poll, ServiceError>)
    requires
        db.wf(),
    ensures
        r matches Ok(p) ==> db.polls@.contains(p) && exists|i: int|
            0 <= i < db.poll_options@.len() && #[trigger] db.poll_options@[i].id == poll_option_id
                && db.poll_options@[i].poll_id == p.id,
        r is Ok <==> option_poll_exists(db.poll_options@, db.polls@, poll_option_id),
        !has_option(db.poll_options@, poll_option_id) ==> r == Err::<Poll, ServiceError>(
            ServiceError::PollOptionNotFound,
        ),
        has_option(db.poll_options@, poll_option_id) ==> r is Ok,
{
    proof {
        lemma_option_has_poll(db.poll_options@, db.polls@, poll_option_id);
    }
    let i = match find_option(&db.poll_options, poll_option_id) {
        Some(i) => i,
        None => {
            proof {
                let os = db.poll_options@;
                assert forall|a: int, b: int|
                    0 <= a < os.len() && 0 <= b < db.polls@.len() && #[trigger] os[a].id
                        == poll_option_id implies #[trigger] db.polls@[b].id != os[a].poll_id by {
                    assert(option_id_key()(os[a]) == poll_option_id);
                }
            }
            return Err(ServiceError::PollOptionNotFound);
        },
    };
    match find_poll(&db.polls, db.poll_options[i].poll_id) {
        Some(j) => {
            assert(db.poll_options@[i as int].id == poll_option_id);
            Ok(db.polls[j].cloned())
        },
        None => {
            proof {
                let os = db.poll_options@;
                let ps = db.polls@;
                assert forall|a: int, b: int|
                    0 <= a < os.len() && 0 <= b < ps.len() && #[trigger] os[a].id == poll_option_id
                        implies #[trigger] ps[b].id != os[a].poll_id by {
                    if a != i as int {
                        assert(option_id_key()(os[a]) != option_id_key()(os[i as int]));
                    }
                    if ps[b].id == os[a].poll_id {
                        assert(crate::store::poll_id_key()(ps[b]) == os[i as int].poll_id);
                    }
                }
            }
            Err(ServiceError::PollNotFound)
        },
    }
}

/// Sets the text of option `poll_option_id`; nothing changes when there is
/// no such option.
pub fn set_poll_option_value(db: &mut Store, poll_option_id: i32, value: String) -> (r: Result<
    (),
    ServiceError,
>)
    requires
        old(db).wf(),
    ensures
        final(db).wf(),
        r == rule(valid_option_value(value@), ServiceError::OptionValueLength),
        r is Ok ==> final(db).poll_options@ == revalued(old(db).poll_options@, poll_option_id, value),
        r is Err ==> final(db).poll_options@ == old(db).poll_options@,
        final(db).polls@ == old(db).polls@,
        final(db).poll_votes@ == old(db).poll_votes@,
        final(db).next_poll_id == old(db).next_poll_id,
        final(db).next_poll_option_id == old(db).next_poll_option_id,
        final(db).next_poll_vote_id == old(db).next_poll_vote_id,
        final(db).same_users(old(db)),
        final(db).same_sessions(old(db)),
        final(db).same_tokens(old(db)),
{
    check_option_value(&value)?;
    let ghost os = db.poll_options@;
    let ghost val = value;
    match find_option(&db.poll_options, poll_option_id) {
        None => {
            proof {
                assert forall|k: int| 0 <= k < os.len() implies os[k].id != poll_option_id by {
                    if os[k].id == poll_option_id {
                        assert(option_id_key()(os[k]) == poll_option_id);
                    }
                }
            }
            assert(db.poll_options@ =~= revalued(os, poll_option_id, val));
        },
        Some(j) => {
            let mut o = db.poll_options[j].cloned();
            o.value = value;
            proof {
                lemma_update_unique(os, option_id_key(), j as int, o);
                crate::store::lemma_options_in_polls_update_option(os, db.polls@, j as int, o);
                assert forall|k: int| 0 <= k < os.len() && k != j implies os[k].id
                    != poll_option_id by {
                    assert(option_id_key()(os[k]) != option_id_key()(os[j as int]));
                }
                assert forall|pid: i32| #[trigger] poll_options_of(os.update(j as int, o), pid).len()
                    == poll_options_of(os, pid).len() by {
                    assert(os.update(j as int, o) =~= os.take(j as int).push(o) + os.skip(j + 1));
                    assert(os =~= os.take(j as int).push(os[j as int]) + os.skip(j + 1));
                    os.take(j as int).lemma_filter_push(o, of_poll(pid));
                    os.take(j as int).lemma_filter_push(os[j as int], of_poll(pid));
                }
            }
            db.poll_options.set(j, o);
            assert(db.poll_options@ =~= revalued(os, poll_option_id, val));
            proof {
                assert forall|pid: i32| #[trigger] poll_options_of(db.poll_options@, pid).len()
                    <= MAX_POLL_OPTIONS by {
                    assert(poll_options_of(os.update(j as int, o), pid).len() == poll_options_of(
                        os,
                        pid,
                    ).len());
                }
            }
        },
    }
    Ok(())
}

/// Deletes option `poll_option_id` and the votes cast for it.
pub fn delete_poll_option(db: &mut Store, poll_option_id: i32)
    requires
        old(db).wf(),
    ensures
        final(db).wf(),
        final(db).poll_options@ == old(db).poll_options@.filter(not_option(poll_option_id)),
        final(db).poll_votes@ == old(db).poll_votes@.filter(vote_not_for_option(poll_option_id)),
        final(db).polls@ == old(db).polls@,
        final(db).next_poll_id == old(db).next_poll_id,
        final(db).next_poll_option_id == old(db).next_poll_option_id,
        final(db).next_poll_vote_id == old(db).next_poll_vote_id,
        final(db).same_users(old(db)),
        final(db).same_sessions(old(db)),
        final(db).same_tokens(old(db)),
{
    let os = &db.poll_options;
    let mut kept_options: Vec<PollOption> = Vec::new();
    let mut i: usize = 0;
    while i < os.len()
        invariant
            i <= os@.len(),
            kept_options@ == os@.take(i as int).filter(not_option(poll_option_id)),
        decreases os@.len() - i,
    {
        proof {
            assert(os@.take(i + 1) == os@.take(i as int).push(os@[i as int]));
            os@.take(i as int).lemma_filter_push(os@[i as int], not_option(poll_option_id));
        }
        if os[i].id != poll_option_id {
            kept_options.push(os[i].cloned());
        }
        i += 1;
    }
    let vs = &db.poll_votes;
    let mut kept_votes: Vec<PollVote> = Vec::new();
    let mut i: usize = 0;
    while i < vs.len()
        invariant
            i <= vs@.len(),
            kept_votes@ == vs@.take(i as int).filter(vote_not_for_option(poll_option_id)),
        decreases vs@.len() - i,
    {
        proof {
            assert(vs@.take(i + 1) == vs@.take(i as int).push(vs@[i as int]));
            vs@.take(i as int).lemma_filter_push(vs@[i as int], vote_not_for_option(poll_option_id));
        }
        if vs[i].poll_option_id != poll_option_id {
            kept_votes.push(vs[i].cloned());
        }
        i += 1;
    }
    proof {
        assert(os@.take(os@.len() as int) == os@);
        assert(vs@.take(vs@.len() as int) == vs@);
        let no = not_option(poll_option_id);
        let nv = vote_not_for_option(poll_option_id);
        lemma_filter_unique(os@, option_id_key(), no);
        crate::store::lemma_options_in_polls_filter_options(os@, db.polls@, no);
        assert forall|k: int| 0 <= k < os@.filter(no).len() implies #[trigger] os@.filter(no)[k].id
            < db.next_poll_option_id by {
            lemma_filter_subset(os@, no, k);
        }
        assert forall|pid: i32| #[trigger] poll_options_of(os@.filter(no), pid).len()
            <= MAX_POLL_OPTIONS by {
            lemma_filter_filter_len(os@, no, of_poll(pid));
            assert(poll_options_of(os@, pid).len() <= MAX_POLL_OPTIONS);
        }
        lemma_filter_unique(vs@, vote_id_key(), nv);
        lemma_filter_unique(vs@, ballot_key(), nv);
        assert forall|k: int| 0 <= k < vs@.filter(nv).len() implies #[trigger] vs@.filter(nv)[k].id
            < db.next_poll_vote_id by {
            lemma_filter_subset(vs@, nv, k);
        }
    }
    db.poll_options = kept_options;
    db.poll_votes = kept_votes;
}

} // verus!
