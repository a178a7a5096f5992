//! Login sessions: creation with bounded retention, lookup and logout.
use vstd::prelude::*;
use crate::error::ServiceError;
use crate::records::{User, Session};
use crate::seq_facts::{unique_by, has_key, lemma_filter_unique, lemma_remove_unique, lemma_push_unique, lemma_filter_filter_len, lemma_filter_none};
use crate::store::{MAX_USER_SESSIONS, Store, session_id_key, user_live, of_user, user_sessions, sessions_wf};
use crate::services::user_service::find_user_by_id;

verus! {

broadcast use vstd::seq_lib::group_seq_lib_default;

pub open spec fn has_session(ss: Seq<Session>, id: Seq<char>) -> bool {
    has_key(ss, session_id_key(), id)
}

/// The last `n` items of `s` (all of them when there are fewer).
pub open spec fn latest(s: Seq<Session>, n: nat) -> Seq<Session> {
    if s.len() <= n {
        s
    } else {
        s.skip(s.len() - n)
    }
}

/// The sessions of a user after logins that open `created`, in order, when
/// it had `us` before.
pub open spec fn sessions_after_logins(us: Seq<Session>, created: Seq<Session>) -> Seq<Session>
    decreases created.len(),
{
    if created.len() == 0 {
        us
    } else {
        sessions_after_logins(
            latest(us.push(created[0]), MAX_USER_SESSIONS as nat),
            created.drop_first(),
        )
    }
}

proof fn lemma_latest_absorbs(a: Seq<Session>, b: Seq<Session>, n: nat)
    ensures
        latest(latest(a, n) + b, n) == latest(a + b, n),
{
    if a.len() > n {
        let l = latest(a, n);
        assert(l.len() == n);
        let x = latest(l + b, n);
        let y = latest(a + b, n);
        assert(x.len() == y.len());
        assert forall|i: int| 0 <= i < x.len() implies x[i] == y[i] by {
            let k = (l + b).len() - x.len() + i;
            let m = (a + b).len() - y.len() + i;
            if k < n {
                assert((l + b)[k] == l[k]);
                assert(l[k] == a[a.len() - n + k]);
                assert(m == a.len() - n + k);
            } else {
                assert((l + b)[k] == b[k - n]);
                assert((a + b)[m] == b[m - a.len()]);
            }
        }
        assert(x =~= y);
    }
}

/// However many logins a user makes, the sessions it keeps are the
/// `MAX_USER_SESSIONS` most recently created ones.
pub proof fn lemma_logins_keep_latest(us: Seq<Session>, created: Seq<Session>)
    requires
        us.len() <= MAX_USER_SESSIONS,
    ensures
        sessions_after_logins(us, created) == latest(us + created, MAX_USER_SESSIONS as nat),
    decreases created.len(),
{
    let n = MAX_USER_SESSIONS as nat;
    if created.len() == 0 {
        assert(us + created =~= us);
    } else {
        let next = latest(us.push(created[0]), n);
        lemma_logins_keep_latest(next, created.drop_first());
        lemma_latest_absorbs(us.push(created[0]), created.drop_first(), n);
        assert(us.push(created[0]) + created.drop_first() =~= us + created);
    }
}

/// Five logins from no sessions leave the last four: the first is ended.
pub proof fn lemma_fifth_login_ends_the_first(created: Seq<Session>)
    requires
        created.len() == 5,
    ensures
        sessions_after_logins(Seq::empty(), created) == created.skip(1),
        sessions_after_logins(Seq::empty(), created).len() == MAX_USER_SESSIONS,
{
    lemma_logins_keep_latest(Seq::empty(), created);
    assert(Seq::<Session>::empty() + created =~= created);
}

pub open spec fn not_session(id: Seq<char>) -> spec_fn(Session) -> bool {
    |s: Session| s.id@ != id
}

pub open spec fn not_of_user(uid: i32) -> spec_fn(Session) -> bool {
    |s: Session| s.user_id != uid
}

/// Some session `id` exists and belongs to an account that counts at `now`.
pub open spec fn session_user_exists(ss: Seq<Session>, us: Seq<User>, id: Seq<char>, now: u64) -> bool {
    exists|i: int, j: int|
        0 <= i < ss.len() && 0 <= j < us.len() && #[trigger] ss[i].id@ == id && #[trigger] us[j].id
            == ss[i].user_id && user_live(us[j], now)
}

fn find_session(ss: &Vec<Session>, id: &String) -> (r: Option<usize>)
    ensures
        r matches Some(i) ==> i < ss@.len() && ss@[i as int].id@ == id@,
        r is Some <==> has_session(ss@, id@),
{
    let mut i: usize = 0;
    while i < ss.len()
        invariant
            i <= ss@.len(),
            forall|k: int| 0 <= k < i ==> ss@[k].id@ != id@,
        decreases ss@.len() - i,
    {
        if ss[i].id == *id {
            proof {
                assert(session_id_key()(ss@[i as int]) == id@);
            }
            return Some(i);
        }
        i += 1;
    }
    proof {
        assert forall|k: int| 0 <= k < ss@.len() implies #[trigger] session_id_key()(ss@[k])
            != id@ by {
            assert(ss@[k].id@ != id@);
        }
    }
    None
}

fn first_of_user(ss: &Vec<Session>, uid: i32) -> (r: Option<usize>)
    ensures
        r matches Some(k) ==> k < ss@.len() && ss@[k as int].user_id == uid && forall|j: int|
            0 <= j < k ==> ss@[j].user_id != uid,
        r is None ==> forall|j: int| 0 <= j < ss@.len() ==> ss@[j].user_id != uid,
{
    let mut i: usize = 0;
    while i < ss.len()
        invariant
            i <= ss@.len(),
            forall|j: int| 0 <= j < i ==> ss@[j].user_id != uid,
        decreases ss@.len() - i,
    {
        if ss[i].user_id == uid {
            return Some(i);
        }
        i += 1;
    }
    None
}

fn count_user_sessions(ss: &Vec<Session>, uid: i32) -> (r: usize)
    ensures
        r == user_sessions(ss@, uid).len(),
{
    let mut n: usize = 0;
    let mut i: usize = 0;
    while i < ss.len()
        invariant
            i <= ss@.len(),
            n == ss@.take(i as int).filter(of_user(uid)).len(),
        decreases ss@.len() - i,
    {
        proof {
            assert(ss@.take(i + 1) == ss@.take(i as int).push(ss@[i as int]));
            ss@.take(i as int).lemma_filter_push(ss@[i as int], of_user(uid));
            ss@.take(i as int).lemma_filter_len(of_user(uid));
        }
        if ss[i].user_id == uid {
            n += 1;
        }
        i += 1;
    }
    proof {
        assert(ss@.take(ss@.len() as int) == ss@);
    }
    n
}

/// Removing the oldest session of `uid` drops the first of its sessions and
/// leaves every other user's sessions alone.
proof fn lemma_remove_first_of_user(ss: Seq<Session>, uid: i32, k: int)
    requires
        0 <= k < ss.len(),
        ss[k].user_id == uid,
        forall|j: int| 0 <= j < k ==> ss[j].user_id != uid,
    ensures
        user_sessions(ss.remove(k), uid) == user_sessions(ss, uid).drop_first(),
        forall|v: i32| v != uid ==> #[trigger] user_sessions(ss.remove(k), v) == user_sessions(ss, v),
        ss.remove(k).filter(not_of_user(uid)) == ss.filter(not_of_user(uid)),
{
    let a = ss.take(k);
    let b = ss.skip(k + 1);
    let x = seq![ss[k]];
    assert(ss =~= a + x + b);
    assert(ss.remove(k) =~= a + b);
    assert(x =~= Seq::<Session>::empty().push(ss[k]));
    reveal(Seq::filter);
    assert(Seq::<Session>::empty().filter(of_user(uid)) =~= Seq::<Session>::empty());
    Seq::<Session>::empty().lemma_filter_push(ss[k], of_user(uid));
    assert(x.filter(of_user(uid)) == x);
    lemma_filter_none(a, of_user(uid));
    assert((a + x + b).filter(of_user(uid)) == a.filter(of_user(uid)) + x.filter(of_user(uid))
        + b.filter(of_user(uid)));
    assert(user_sessions(ss, uid) =~= x + b.filter(of_user(uid)));
    assert(user_sessions(ss.remove(k), uid) =~= b.filter(of_user(uid)));
    assert forall|v: i32| v != uid implies #[trigger] user_sessions(ss.remove(k), v)
        == user_sessions(ss, v) by {
        assert(Seq::<Session>::empty().filter(of_user(v)) =~= Seq::<Session>::empty());
        Seq::<Session>::empty().lemma_filter_push(ss[k], of_user(v));
        assert(x.filter(of_user(v)) =~= Seq::<Session>::empty());
        assert((a + x + b).filter(of_user(v)) == a.filter(of_user(v)) + x.filter(of_user(v))
            + b.filter(of_user(v)));
        assert(user_sessions(ss, v) =~= a.filter(of_user(v)) + b.filter(of_user(v)));
    }
    assert(Seq::<Session>::empty().filter(not_of_user(uid)) =~= Seq::<Session>::empty());
    Seq::<Session>::empty().lemma_filter_push(ss[k], not_of_user(uid));
    assert(x.filter(not_of_user(uid)) =~= Seq::<Session>::empty());
    assert((a + x + b).filter(not_of_user(uid)) == a.filter(not_of_user(uid)) + x.filter(
        not_of_user(uid),
    ) + b.filter(not_of_user(uid)));
    assert(ss.filter(not_of_user(uid)) =~= a.filter(not_of_user(uid)) + b.filter(not_of_user(uid)));
}

/// Ends the oldest sessions of `uid` until at most `MAX_USER_SESSIONS` remain.
fn evict_oldest(ss: &mut Vec<Session>, uid: i32)
    requires
        unique_by(old(ss)@, session_id_key()),
    ensures
        unique_by(final(ss)@, session_id_key()),
        user_sessions(final(ss)@, uid) == latest(user_sessions(old(ss)@, uid), MAX_USER_SESSIONS as nat),
        forall|v: i32| v != uid ==> #[trigger] user_sessions(final(ss)@, v) == user_sessions(old(ss)@, v),
        final(ss)@.filter(not_of_user(uid)) == old(ss)@.filter(not_of_user(uid)),
{
    let ghost orig = user_sessions(ss@, uid);
    let mut n = count_user_sessions(ss, uid);
    let ghost mut dropped: int = 0;
    while n > MAX_USER_SESSIONS
        invariant
            unique_by(ss@, session_id_key()),
            n == user_sessions(ss@, uid).len(),
            0 <= dropped <= orig.len(),
            user_sessions(ss@, uid) == orig.skip(dropped),
            n > MAX_USER_SESSIONS ==> orig.len() - dropped > MAX_USER_SESSIONS,
            n <= MAX_USER_SESSIONS ==> latest(orig, MAX_USER_SESSIONS as nat) == orig.skip(dropped),
            forall|v: i32| v != uid ==> #[trigger] user_sessions(ss@, v) == user_sessions(old(ss)@, v),
            ss@.filter(not_of_user(uid)) == old(ss)@.filter(not_of_user(uid)),
        decreases n,
    {
        let k = first_of_user(ss, uid);
        proof {
            if k is None {
                lemma_filter_none(ss@, of_user(uid));
            }
        }
        let k = k.unwrap();
        proof {
            lemma_remove_first_of_user(ss@, uid, k as int);
            lemma_remove_unique(ss@, session_id_key(), k as int);
            assert(orig.skip(dropped).drop_first() =~= orig.skip(dropped + 1));
        }
        ss.remove(k);
        proof {
            dropped = dropped + 1;
        }
        n = n - 1;
    }
}

/// Opens a session `session_id` for `user_id`, ending that user's oldest
/// session when it already has `MAX_USER_SESSIONS`. An id that is already in
/// use is refused.
pub fn create_session(db: &mut Store, user_id: i32, session_id: String, now: u64) -> (r: Result<
    Session,
    ServiceError,
>)
    requires
        old(db).wf(),
    ensures
        final(db).wf(),
        final(db).same_users(old(db)),
        final(db).same_tokens(old(db)),
        final(db).same_polls(old(db)),
        has_session(old(db).sessions@, session_id@) ==> r == Err::<Session, ServiceError>(
            ServiceError::DuplicateToken,
        ) && final(db).sessions@ == old(db).sessions@,
        !has_session(old(db).sessions@, session_id@) ==> {
            &&& r == Ok::<Session, ServiceError>(
                Session { id: session_id, user_id, create_time: now },
            )
            &&& user_sessions(final(db).sessions@, user_id) == latest(
                user_sessions(old(db).sessions@, user_id).push(
                    Session { id: session_id, user_id, create_time: now },
                ),
                MAX_USER_SESSIONS as nat,
            )
            &&& forall|v: i32|
                v != user_id ==> #[trigger] user_sessions(final(db).sessions@, v) == user_sessions(
                    old(db).sessions@,
                    v,
                )
            &&& final(db).sessions@.filter(not_of_user(user_id)) == old(db).sessions@.filter(
                not_of_user(user_id),
            )
        },
{
    if find_session(&db.sessions, &session_id).is_some() {
        return Err(ServiceError::DuplicateToken);
    }
    let s = Session { id: session_id, user_id, create_time: now };
    let ghost before = db.sessions@;
    proof {
        lemma_push_unique(before, session_id_key(), s);
        before.lemma_filter_push(s, of_user(user_id));
        before.lemma_filter_push(s, not_of_user(user_id));
        assert forall|v: i32| v != user_id implies #[trigger] user_sessions(before.push(s), v)
            == user_sessions(before, v) by {
            before.lemma_filter_push(s, of_user(v));
        }
    }
    db.sessions.push(s.cloned());
    evict_oldest(&mut db.sessions, user_id);
    proof {
        let us = user_sessions(db.sessions@, user_id);
        assert(us.len() <= MAX_USER_SESSIONS);
        assert forall|v: i32| #[trigger] user_sessions(db.sessions@, v).len()
            <= MAX_USER_SESSIONS by {
            if v != user_id {
                assert(user_sessions(db.sessions@, v) == user_sessions(before, v));
            }
        }
    }
    Ok(s)
}

/// Whether a session `session_id` exists.
pub fn session_exists(db: &Store, session_id: &String) -> (r: bool)
    ensures
        r == has_session(db.sessions@, session_id@),
{
    find_session(&db.sessions, session_id).is_some()
}

/// The session `session_id`.
pub fn get_session(db: &Store, session_id: &String) -> (r: Result<Session, ServiceError>)
    requires
        db.wf(),
    ensures
        r matches Ok(s) ==> db.sessions@.contains(s) && s.id@ == session_id@,
        r is Err <==> !has_session(db.sessions@, session_id@),
        r is Err ==> r == Err::<Session, ServiceError>(ServiceError::SessionNotFound),
{
    match find_session(&db.sessions, session_id) {
        Some(i) => Ok(db.sessions[i].cloned()),
        None => Err(ServiceError::SessionNotFound),
    }
}

/// The account that owns session `session_id`, if it still counts at `now`.
pub fn get_user_by_session_id(db: &Store, session_id: &String, now: u64) -> (r: Result<
    User,
    ServiceError,
>)
    requires
        db.wf(),
    ensures
        r matches Ok(u) ==> {
            &&& db.users@.contains(u)
            &&& user_live(u, now)
            &&& exists|i: int|
                0 <= i < db.sessions@.len() && #[trigger] db.sessions@[i].id@ == session_id@
                    && db.sessions@[i].user_id == u.id
        },
        r is Err <==> !session_user_exists(db.sessions@, db.users@, session_id@, now),
        r is Err ==> r == Err::<User, ServiceError>(ServiceError::InvalidSession),
{
    match find_session(&db.sessions, session_id) {
        Some(i) => {
            let uid = db.sessions[i].user_id;
            match find_user_by_id(&db.users, uid, now) {
                Some(j) => Ok(db.users[j].cloned()),
                None => {
                    proof {
                        assert forall|a: int, b: int|
                            0 <= a < db.sessions@.len() && 0 <= b < db.users@.len()
                                && #[trigger] db.sessions@[a].id@ == session_id@
                                && #[trigger] db.users@[b].id == db.sessions@[a].user_id
                                implies !user_live(db.users@[b], now) by {
                            if a != i as int {
                                assert(session_id_key()(db.sessions@[a])
                                    != session_id_key()(db.sessions@[i as int]));
                            }
                        }
                    }
                    Err(ServiceError::InvalidSession)
                },
            }
        },
        None => {
            proof {
                assert forall|a: int, b: int|
                    0 <= a < db.sessions@.len() && 0 <= b < db.users@.len()
                        && #[trigger] db.sessions@[a].id@ == session_id@
                        && #[trigger] db.users@[b].id == db.sessions@[a].user_id implies false by {
                    assert(session_id_key()(db.sessions@[a]) == session_id@);
                }
            }
            Err(ServiceError::InvalidSession)
        },
    }
}

/// The sessions of `user_id`, oldest first.
pub fn get_user_sessions(db: &Store, user_id: i32) -> (r: Vec<Session>)
    ensures
        r@ == user_sessions(db.sessions@, user_id),
{
    let ss = &db.sessions;
    let mut out: Vec<Session> = Vec::new();
    let mut i: usize = 0;
    while i < ss.len()
        invariant
            i <= ss@.len(),
            out@ == ss@.take(i as int).filter(of_user(user_id)),
        decreases ss@.len() - i,
    {
        proof {
            assert(ss@.take(i + 1) == ss@.take(i as int).push(ss@[i as int]));
            ss@.take(i as int).lemma_filter_push(ss@[i as int], of_user(user_id));
        }
        if ss[i].user_id == user_id {
            out.push(ss[i].cloned());
        }
        i += 1;
    }
    proof {
        assert(ss@.take(ss@.len() as int) == ss@);
    }
    out
}

/// Keeps the sessions of `ss` that pass `keep`, which is `not_session(id)`
/// when `by_user` is false and `not_of_user(uid)` otherwise.
fn retain_sessions(ss: &Vec<Session>, id: &String, uid: i32, by_user: bool) -> (r: Vec<Session>)
    ensures
        !by_user ==> r@ == ss@.filter(not_session(id@)),
        by_user ==> r@ == ss@.filter(not_of_user(uid)),
{
    let ghost p = if by_user { not_of_user(uid) } else { not_session(id@) };
    let mut out: Vec<Session> = Vec::new();
    let mut i: usize = 0;
    while i < ss.len()
        invariant
            i <= ss@.len(),
            p == if by_user { not_of_user(uid) } else { not_session(id@) },
            out@ == ss@.take(i as int).filter(p),
        decreases ss@.len() - i,
    {
        proof {
            assert(ss@.take(i + 1) == ss@.take(i as int).push(ss@[i as int]));
            ss@.take(i as int).lemma_filter_push(ss@[i as int], p);
        }
        let keep = if by_user {
            ss[i].user_id != uid
        } else {
            !(ss[i].id == *id)
        };
        if keep {
            out.push(ss[i].cloned());
        }
        i += 1;
    }
    proof {
        assert(ss@.take(ss@.len() as int) == ss@);
    }
    out
}

proof fn lemma_retain_keeps_wf(ss: Seq<Session>, p: spec_fn(Session) -> bool)
    requires
        sessions_wf(ss),
    ensures
        sessions_wf(ss.filter(p)),
{
    lemma_filter_unique(ss, session_id_key(), p);
    assert forall|uid: i32| #[trigger] user_sessions(ss.filter(p), uid).len()
        <= MAX_USER_SESSIONS by {
        lemma_filter_filter_len(ss, p, of_user(uid));
        assert(user_sessions(ss, uid).len() <= MAX_USER_SESSIONS);
    }
}

/// Ends session `session_id`; nothing happens when there is none.
pub fn delete_session(db: &mut Store, session_id: &String)
    requires
        old(db).wf(),
    ensures
        final(db).wf(),
        final(db).sessions@ == old(db).sessions@.filter(not_session(session_id@)),
        final(db).same_users(old(db)),
        final(db).same_tokens(old(db)),
        final(db).same_polls(old(db)),
{
    let kept = retain_sessions(&db.sessions, session_id, 0, false);
    proof {
        lemma_retain_keeps_wf(db.sessions@, not_session(session_id@));
    }
    db.sessions = kept;
}

/// Ends every session of `user_id`.
pub fn delete_user_sessions(db: &mut Store, user_id: i32)
    requires
        old(db).wf(),
    ensures
        final(db).wf(),
        final(db).sessions@ == old(db).sessions@.filter(not_of_user(user_id)),
        final(db).same_users(old(db)),
        final(db).same_tokens(old(db)),
        final(db).same_polls(old(db)),
{
    let empty = String::new();
    let kept = retain_sessions(&db.sessions, &empty, user_id, true);
    proof {
        lemma_retain_keeps_wf(db.sessions@, not_of_user(user_id));
    }
    db.sessions = kept;
}

/// Ends the oldest sessions of `user_id` beyond the `MAX_USER_SESSIONS` most
/// recent ones.
pub fn delete_old_user_sessions(db: &mut Store, user_id: i32)
    requires
        old(db).wf(),
    ensures
        final(db).wf(),
        user_sessions(final(db).sessions@, user_id) == latest(
            user_sessions(old(db).sessions@, user_id),
            MAX_USER_SESSIONS as nat,
        ),
        forall|v: i32|
            v != user_id ==> #[trigger] user_sessions(final(db).sessions@, v) == user_sessions(
                old(db).sessions@,
                v,
            ),
        final(db).sessions@.filter(not_of_user(user_id)) == old(db).sessions@.filter(
            not_of_user(user_id),
        ),
        final(db).same_users(old(db)),
        final(db).same_tokens(old(db)),
        final(db).same_polls(old(db)),
{
    evict_oldest(&mut db.sessions, user_id);
    proof {
        assert forall|v: i32| #[trigger] user_sessions(db.sessions@, v).len()
            <= MAX_USER_SESSIONS by {
            if v != user_id {
                assert(user_sessions(db.sessions@, v) == user_sessions(old(db).sessions@, v));
            }
        }
    }
}

} // verus!
