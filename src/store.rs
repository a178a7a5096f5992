//! The relational store: one vector per table, and the integrity rules that
//! every service operation keeps.
use vstd::prelude::*;
use crate::records::{User, Session, Token, Poll, PollOption, PollVote};
use crate::seq_facts::{unique_by, has_key, lemma_filter_subset};
use crate::crypto::readable_hash;

verus! {

/// The most sessions one user keeps; a login beyond it ends the oldest.
pub const MAX_USER_SESSIONS: usize = 4;

/// The most options one poll can have.
pub const MAX_POLL_OPTIONS: usize = 16;

/// Seconds an unverified account is kept before it is pruned.
pub const UNVERIFIED_USER_LIFETIME: u64 = 86400;

/// Seconds an email verification token stays valid.
pub const VERIFICATION_LIFETIME: u64 = 86400;

/// Seconds a password reset token stays valid.
pub const PASSWORD_RESET_LIFETIME: u64 = 3600;

pub struct Store {
    pub users: Vec<User>,
    pub sessions: Vec<Session>,
    pub verifications: Vec<Token>,
    pub password_resets: Vec<Token>,
    pub polls: Vec<Poll>,
    pub poll_options: Vec<PollOption>,
    pub poll_votes: Vec<PollVote>,
    pub next_user_id: i32,
    pub next_poll_id: i32,
    pub next_poll_option_id: i32,
    pub next_poll_vote_id: i32,
    /// The bcrypt cost that new password hashes are made with.
    pub hash_cost: u32,
}

// ---- keys -------------------------------------------------------------

pub open spec fn user_id_key() -> spec_fn(User) -> i32 {
    |u: User| u.id
}

pub open spec fn username_key() -> spec_fn(User) -> Seq<char> {
    |u: User| u.username@
}

pub open spec fn user_email_key() -> spec_fn(User) -> Seq<char> {
    |u: User| u.email@
}

pub open spec fn session_id_key() -> spec_fn(Session) -> Seq<char> {
    |s: Session| s.id@
}

pub open spec fn token_id_key() -> spec_fn(Token) -> Seq<char> {
    |t: Token| t.id@
}

pub open spec fn token_email_key() -> spec_fn(Token) -> Seq<char> {
    |t: Token| t.email@
}

pub open spec fn poll_id_key() -> spec_fn(Poll) -> i32 {
    |p: Poll| p.id
}

pub open spec fn option_id_key() -> spec_fn(PollOption) -> i32 {
    |o: PollOption| o.id
}

pub open spec fn vote_id_key() -> spec_fn(PollVote) -> i32 {
    |v: PollVote| v.id
}

/// A user has one ballot per poll.
pub open spec fn ballot_key() -> spec_fn(PollVote) -> (i32, i32) {
    |v: PollVote| (v.user_id, v.poll_id)
}

// ---- selections ------------------------------------------------------

/// An account counts until it is verified or its grace period ends.
pub open spec fn user_live(u: User, now: u64) -> bool {
    u.verified || now < u.join_time + UNVERIFIED_USER_LIFETIME
}

pub open spec fn live_user(now: u64) -> spec_fn(User) -> bool {
    |u: User| user_live(u, now)
}

/// A token is valid for `lifetime` seconds after it was made.
pub open spec fn token_live(t: Token, now: u64, lifetime: u64) -> bool {
    now < t.create_time + lifetime
}

pub open spec fn live_token(now: u64, lifetime: u64) -> spec_fn(Token) -> bool {
    |t: Token| token_live(t, now, lifetime)
}

pub open spec fn of_user(uid: i32) -> spec_fn(Session) -> bool {
    |s: Session| s.user_id == uid
}

/// The sessions of one user, oldest first.
pub open spec fn user_sessions(ss: Seq<Session>, uid: i32) -> Seq<Session> {
    ss.filter(of_user(uid))
}

pub open spec fn of_poll(pid: i32) -> spec_fn(PollOption) -> bool {
    |o: PollOption| o.poll_id == pid
}

/// The options of one poll, in order of creation.
pub open spec fn poll_options_of(os: Seq<PollOption>, pid: i32) -> Seq<PollOption> {
    os.filter(of_poll(pid))
}

pub open spec fn vote_in_poll(pid: i32) -> spec_fn(PollVote) -> bool {
    |v: PollVote| v.poll_id == pid
}

pub open spec fn ballot_of(uid: i32, pid: i32) -> spec_fn(PollVote) -> bool {
    |v: PollVote| v.user_id == uid && v.poll_id == pid
}

// ---- integrity rules -------------------------------------------------

pub open spec fn users_wf(us: Seq<User>, next_id: i32) -> bool {
    &&& unique_by(us, user_id_key())
    &&& unique_by(us, username_key())
    &&& unique_by(us, user_email_key())
    &&& forall|i: int| 0 <= i < us.len() ==> #[trigger] us[i].id < next_id
    &&& forall|i: int| 0 <= i < us.len() ==> readable_hash(#[trigger] us[i].password@)
}

pub open spec fn sessions_wf(ss: Seq<Session>) -> bool {
    &&& unique_by(ss, session_id_key())
    &&& forall|uid: i32| #[trigger] user_sessions(ss, uid).len() <= MAX_USER_SESSIONS
}

/// Token ids are unique, and each email has at most one pending token.
pub open spec fn tokens_wf(ts: Seq<Token>) -> bool {
    &&& unique_by(ts, token_id_key())
    &&& unique_by(ts, token_email_key())
}

pub open spec fn polls_wf(ps: Seq<Poll>, next_id: i32) -> bool {
    &&& unique_by(ps, poll_id_key())
    &&& forall|i: int| 0 <= i < ps.len() ==> #[trigger] ps[i].id < next_id
}

pub open spec fn options_wf(os: Seq<PollOption>, next_id: i32) -> bool {
    &&& unique_by(os, option_id_key())
    &&& forall|i: int| 0 <= i < os.len() ==> #[trigger] os[i].id < next_id
    &&& forall|pid: i32| #[trigger] poll_options_of(os, pid).len() <= MAX_POLL_OPTIONS
}

pub open spec fn votes_wf(vs: Seq<PollVote>, next_id: i32) -> bool {
    &&& unique_by(vs, vote_id_key())
    &&& unique_by(vs, ballot_key())
    &&& forall|i: int| 0 <= i < vs.len() ==> #[trigger] vs[i].id < next_id
}

/// Every option belongs to a poll that exists.
pub open spec fn options_in_polls(os: Seq<PollOption>, ps: Seq<Poll>) -> bool {
    forall|i: int| 0 <= i < os.len() ==> has_key(ps, poll_id_key(), #[trigger] os[i].poll_id)
}

pub proof fn lemma_options_in_polls_push_poll(os: Seq<PollOption>, ps: Seq<Poll>, p: Poll)
    requires
        options_in_polls(os, ps),
    ensures
        options_in_polls(os, ps.push(p)),
{
    assert forall|i: int| 0 <= i < os.len() implies has_key(
        ps.push(p),
        poll_id_key(),
        #[trigger] os[i].poll_id,
    ) by {
        let j = choose|j: int| 0 <= j < ps.len() && #[trigger] poll_id_key()(ps[j]) == os[i].poll_id;
        assert(poll_id_key()(ps.push(p)[j]) == os[i].poll_id);
    }
}

pub proof fn lemma_options_in_polls_update_poll(os: Seq<PollOption>, ps: Seq<Poll>, n: int, p: Poll)
    requires
        options_in_polls(os, ps),
        0 <= n < ps.len(),
        p.id == ps[n].id,
    ensures
        options_in_polls(os, ps.update(n, p)),
{
    assert forall|i: int| 0 <= i < os.len() implies has_key(
        ps.update(n, p),
        poll_id_key(),
        #[trigger] os[i].poll_id,
    ) by {
        let j = choose|j: int| 0 <= j < ps.len() && #[trigger] poll_id_key()(ps[j]) == os[i].poll_id;
        assert(poll_id_key()(ps.update(n, p)[j]) == os[i].poll_id);
    }
}

pub proof fn lemma_options_in_polls_filter_options(
    os: Seq<PollOption>,
    ps: Seq<Poll>,
    q: spec_fn(PollOption) -> bool,
)
    requires
        options_in_polls(os, ps),
    ensures
        options_in_polls(os.filter(q), ps),
{
    assert forall|i: int| 0 <= i < os.filter(q).len() implies has_key(
        ps,
        poll_id_key(),
        #[trigger] os.filter(q)[i].poll_id,
    ) by {
        lemma_filter_subset(os, q, i);
        let k = choose|k: int| 0 <= k < os.len() && os[k] == os.filter(q)[i];
        assert(has_key(ps, poll_id_key(), os[k].poll_id));
    }
}

pub proof fn lemma_options_in_polls_update_option(
    os: Seq<PollOption>,
    ps: Seq<Poll>,
    n: int,
    o: PollOption,
)
    requires
        options_in_polls(os, ps),
        0 <= n < os.len(),
        o.poll_id == os[n].poll_id,
    ensures
        options_in_polls(os.update(n, o), ps),
{
    assert forall|i: int| 0 <= i < os.len() implies has_key(
        ps,
        poll_id_key(),
        #[trigger] os.update(n, o)[i].poll_id,
    ) by {
        assert(os.update(n, o)[i].poll_id == os[i].poll_id);
    }
}

impl Store {
    pub open spec fn wf(&self) -> bool {
        &&& users_wf(self.users@, self.next_user_id)
        &&& sessions_wf(self.sessions@)
        &&& tokens_wf(self.verifications@)
        &&& tokens_wf(self.password_resets@)
        &&& polls_wf(self.polls@, self.next_poll_id)
        &&& options_wf(self.poll_options@, self.next_poll_option_id)
        &&& options_in_polls(self.poll_options@, self.polls@)
        &&& votes_wf(self.poll_votes@, self.next_poll_vote_id)
    }

    pub open spec fn same_users(&self, o: &Store) -> bool {
        &&& self.users@ == o.users@
        &&& self.next_user_id == o.next_user_id
        &&& self.hash_cost == o.hash_cost
    }

    pub open spec fn same_sessions(&self, o: &Store) -> bool {
        self.sessions@ == o.sessions@
    }

    pub open spec fn same_tokens(&self, o: &Store) -> bool {
        &&& self.verifications@ == o.verifications@
        &&& self.password_resets@ == o.password_resets@
    }

    pub open spec fn same_polls(&self, o: &Store) -> bool {
        &&& self.polls@ == o.polls@
        &&& self.poll_options@ == o.poll_options@
        &&& self.poll_votes@ == o.poll_votes@
        &&& self.next_poll_id == o.next_poll_id
        &&& self.next_poll_option_id == o.next_poll_option_id
        &&& self.next_poll_vote_id == o.next_poll_vote_id
    }

    pub open spec fn same_as(&self, o: &Store) -> bool {
        &&& self.same_users(o)
        &&& self.same_sessions(o)
        &&& self.same_tokens(o)
        &&& self.same_polls(o)
    }

    /// An empty store whose password hashes are made with `hash_cost`.
    pub fn new(hash_cost: u32) -> (r: Store)
        ensures
            r.wf(),
            r.hash_cost == hash_cost,
            r.users@.len() == 0,
            r.sessions@.len() == 0,
            r.verifications@.len() == 0,
            r.password_resets@.len() == 0,
            r.polls@.len() == 0,
            r.poll_options@.len() == 0,
            r.poll_votes@.len() == 0,
            r.next_user_id == 1,
            r.next_poll_id == 1,
            r.next_poll_option_id == 1,
            r.next_poll_vote_id == 1,
    {
        let r = Store {
            users: Vec::new(),
            sessions: Vec::new(),
            verifications: Vec::new(),
            password_resets: Vec::new(),
            polls: Vec::new(),
            poll_options: Vec::new(),
            poll_votes: Vec::new(),
            next_user_id: 1,
            next_poll_id: 1,
            next_poll_option_id: 1,
            next_poll_vote_id: 1,
            hash_cost,
        };
        proof {
            assert forall|uid: i32| #[trigger] user_sessions(r.sessions@, uid).len()
                <= MAX_USER_SESSIONS by {
                r.sessions@.lemma_filter_len(of_user(uid));
            }
            assert forall|pid: i32| #[trigger] poll_options_of(r.poll_options@, pid).len()
                <= MAX_POLL_OPTIONS by {
                r.poll_options@.lemma_filter_len(of_poll(pid));
            }
        }
        r
    }
}

} // verus!
