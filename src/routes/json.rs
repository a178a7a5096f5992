//! The records as they are rendered to clients.
use vstd::prelude::*;
use crate::records::{User, Poll, PollOption, PollVote};

verus! {

pub struct UserJSON {
    pub id: i32,
    pub username: String,
    pub email: String,
    pub join_time: i64,
}

pub struct PollJSON {
    pub id: i32,
    pub user_id: i32,
    pub title: String,
    pub description: String,
    pub create_time: i64,
}

pub struct PollOptionJSON {
    pub id: i32,
    pub poll_id: i32,
    pub value: String,
}

pub struct PollVoteJSON {
    pub id: i32,
    pub user_id: i32,
    pub poll_id: i32,
    pub poll_option_id: i32,
    pub vote_time: i64,
}

/// A vote with the voter's name and the chosen option's text.
pub struct PollUserVoteJSON {
    pub user_id: i32,
    pub username: String,
    pub poll_option_id: i32,
    pub poll_option_value: String,
    pub vote_time: i64,
}

/// A time as a signed count of seconds, capped at `i64::MAX`.
pub open spec fn stamp(t: u64) -> i64 {
    if t <= i64::MAX as u64 {
        t as i64
    } else {
        i64::MAX
    }
}

pub fn timestamp(t: u64) -> (r: i64)
    ensures
        r == stamp(t),
{
    if t <= i64::MAX as u64 {
        t as i64
    } else {
        i64::MAX
    }
}

pub open spec fn user_json(u: User) -> UserJSON {
    UserJSON { id: u.id, username: u.username, email: u.email, join_time: stamp(u.join_time) }
}

pub open spec fn poll_json(p: Poll) -> PollJSON {
    PollJSON {
        id: p.id,
        user_id: p.user_id,
        title: p.title,
        description: p.description,
        create_time: stamp(p.create_time),
    }
}

pub open spec fn option_json(o: PollOption) -> PollOptionJSON {
    PollOptionJSON { id: o.id, poll_id: o.poll_id, value: o.value }
}

pub open spec fn vote_json(v: PollVote) -> PollVoteJSON {
    PollVoteJSON {
        id: v.id,
        user_id: v.user_id,
        poll_id: v.poll_id,
        poll_option_id: v.poll_option_id,
        vote_time: stamp(v.vote_time),
    }
}

impl UserJSON {
    /// The public part of an account: the password hash and the verified
    /// flag stay out.
    pub fn from_user(u: User) -> (r: UserJSON)
        ensures
            r == user_json(u),
    {
        UserJSON { id: u.id, username: u.username, email: u.email, join_time: timestamp(u.join_time) }
    }
}

impl PollJSON {
    pub fn from_poll(p: Poll) -> (r: PollJSON)
        ensures
            r == poll_json(p),
    {
        PollJSON {
            id: p.id,
            user_id: p.user_id,
            title: p.title,
            description: p.description,
            create_time: timestamp(p.create_time),
        }
    }
}

impl PollOptionJSON {
    pub fn from_option(o: PollOption) -> (r: PollOptionJSON)
        ensures
            r == option_json(o),
    {
        PollOptionJSON { id: o.id, poll_id: o.poll_id, value: o.value }
    }

    pub fn from_options(os: Vec<PollOption>) -> (r: Vec<PollOptionJSON>)
        ensures
            r@ == os@.map_values(|o: PollOption| option_json(o)),
    {
        let mut out: Vec<PollOptionJSON> = Vec::new();
        let mut i: usize = 0;
        while i < os.len()
            invariant
                i <= os@.len(),
                out@ == os@.take(i as int).map_values(|o: PollOption| option_json(o)),
            decreases os@.len() - i,
        {
            out.push(PollOptionJSON::from_option(os[i].cloned()));
            proof {
                assert(os@.take(i + 1).map_values(|o: PollOption| option_json(o)) =~= os@.take(
                    i as int,
                ).map_values(|o: PollOption| option_json(o)).push(option_json(os@[i as int])));
            }
            i += 1;
        }
        assert(os@.take(os@.len() as int) =~= os@);
        out
    }
}

impl PollVoteJSON {
    pub fn from_vote(v: PollVote) -> (r: PollVoteJSON)
        ensures
            r == vote_json(v),
    {
        PollVoteJSON {
            id: v.id,
            user_id: v.user_id,
            poll_id: v.poll_id,
            poll_option_id: v.poll_option_id,
            vote_time: timestamp(v.vote_time),
        }
    }

    pub fn from_votes(vs: Vec<PollVote>) -> (r: Vec<PollVoteJSON>)
        ensures
            r@ == vs@.map_values(|v: PollVote| vote_json(v)),
    {
        let mut out: Vec<PollVoteJSON> = Vec::new();
        let mut i: usize = 0;
        while i < vs.len()
            invariant
                i <= vs@.len(),
                out@ == vs@.take(i as int).map_values(|v: PollVote| vote_json(v)),
            decreases vs@.len() - i,
        {
            out.push(PollVoteJSON::from_vote(vs[i].cloned()));
            proof {
                assert(vs@.take(i + 1).map_values(|v: PollVote| vote_json(v)) =~= vs@.take(
                    i as int,
                ).map_values(|v: PollVote| vote_json(v)).push(vote_json(vs@[i as int])));
            }
            i += 1;
        }
        assert(vs@.take(vs@.len() as int) =~= vs@);
        out
    }
}

} // verus!
