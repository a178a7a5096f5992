//! What every route shares: the JSON bodies for success and failure, and
//! the checks that a caller is logged in and may edit a poll.
use vstd::prelude::*;
use crate::error::{ServiceError, message_of};
use crate::records::{Session, User, Poll, PollOption};
use crate::store::{Store, session_id_key, poll_id_key, option_id_key, user_live};
use crate::services::session_service::{session_user_exists, get_user_by_session_id};
use crate::services::poll_service::{has_poll, find_poll};
use crate::services::poll_option_service::{has_option, option_poll_exists, find_option};

verus! {

/// The address of the web front end.
pub const FRONTEND_URL: &'static str = "https://greenpoll.herokuapp.com/";

/// Body of a successful request that returns no record.
pub struct SuccessJSON {
    pub success: bool,
}

/// Body of a failed request.
pub struct ErrorJSON {
    pub error: String,
}

impl SuccessJSON {
    pub fn new() -> (r: SuccessJSON)
        ensures
            r.success,
    {
        SuccessJSON { success: true }
    }
}

impl ErrorJSON {
    pub fn from_error(e: ServiceError) -> (r: ErrorJSON)
        ensures
            r.error@ == message_of(e),
    {
        ErrorJSON { error: String::from_str(e.message()) }
    }
}

pub open spec fn cookie_view(c: Option<&String>) -> Option<Seq<char>> {
    match c {
        Some(s) => Some(s@),
        None => None,
    }
}

/// Session `sid` belongs to the owner of poll `pid`.
pub open spec fn owns_poll(ss: Seq<Session>, ps: Seq<Poll>, sid: Seq<char>, pid: i32) -> bool {
    exists|i: int, j: int|
        0 <= i < ss.len() && 0 <= j < ps.len() && #[trigger] ss[i].id@ == sid && #[trigger] ps[j].id
            == pid && ps[j].user_id == ss[i].user_id
}

/// Session `sid` belongs to the owner of the poll of option `oid`.
pub open spec fn owns_option(ss: Seq<Session>, os: Seq<PollOption>, ps: Seq<Poll>, sid: Seq<char>, oid: i32) -> bool {
    exists|i: int, k: int, j: int|
        0 <= i < ss.len() && 0 <= k < os.len() && 0 <= j < ps.len() && #[trigger] ss[i].id@ == sid
            && #[trigger] os[k].id == oid && #[trigger] ps[j].id == os[k].poll_id && ps[j].user_id
            == ss[i].user_id
}

/// Why a caller holding cookie `sid` is not logged in, if it is not.
pub open spec fn auth_error(db: Store, sid: Option<Seq<char>>, now: u64) -> Option<ServiceError> {
    match sid {
        None => Some(ServiceError::NotLoggedIn),
        Some(s) => if session_user_exists(db.sessions@, db.users@, s, now) {
            None
        } else {
            Some(ServiceError::InvalidSession)
        },
    }
}

/// Why a caller holding cookie `sid` may not edit poll `pid`, if it may not.
pub open spec fn poll_edit_error(db: Store, sid: Option<Seq<char>>, pid: i32, now: u64) -> Option<
    ServiceError,
> {
    match auth_error(db, sid, now) {
        Some(e) => Some(e),
        None => if !has_poll(db.polls@, pid) {
            Some(ServiceError::PollNotFound)
        } else if !owns_poll(db.sessions@, db.polls@, sid.unwrap(), pid) {
            Some(ServiceError::NotPermitted)
        } else {
            None
        },
    }
}

/// Why a caller holding cookie `sid` may not edit option `oid`, if it may not.
pub open spec fn option_edit_error(db: Store, sid: Option<Seq<char>>, oid: i32, now: u64) -> Option<
    ServiceError,
> {
    match auth_error(db, sid, now) {
        Some(e) => Some(e),
        None => if !has_option(db.poll_options@, oid) {
            Some(ServiceError::PollOptionNotFound)
        } else if !option_poll_exists(db.poll_options@, db.polls@, oid) {
            Some(ServiceError::PollNotFound)
        } else if !owns_option(db.sessions@, db.poll_options@, db.polls@, sid.unwrap(), oid) {
            Some(ServiceError::NotPermitted)
        } else {
            None
        },
    }
}

pub open spec fn as_result(e: Option<ServiceError>) -> Result<(), ServiceError> {
    match e {
        Some(e) => Err(e),
        None => Ok(()),
    }
}

/// The logged-in user of a request that carries cookie `session_id`.
pub fn get_user_by_session(db: &Store, session_id: Option<&String>, now: u64) -> (r: Result<
    User,
    ServiceError,
>)
    requires
        db.wf(),
    ensures
        r matches Err(e) ==> auth_error(*db, cookie_view(session_id), now) == Some(e),
        r is Ok <==> auth_error(*db, cookie_view(session_id), now) is None,
        r matches Ok(u) ==> db.users@.contains(u) && user_live(u, now) && exists|i: int|
            0 <= i < db.sessions@.len() && #[trigger] db.sessions@[i].id@ == session_id.unwrap()@
                && db.sessions@[i].user_id == u.id,
{
    match session_id {
        None => Err(ServiceError::NotLoggedIn),
        Some(s) => {
            get_user_by_session_id(db, s, now)
        },
    }
}

/// Checks that the caller holding cookie `session_id` owns poll `poll_id`.
pub fn authorize_poll_edit(db: &Store, session_id: Option<&String>, poll_id: i32, now: u64) -> (r:
    Result<(), ServiceError>)
    requires
        db.wf(),
    ensures
        r == as_result(poll_edit_error(*db, cookie_view(session_id), poll_id, now)),
{
    let user = get_user_by_session(db, session_id, now)?;
    let j = match find_poll(&db.polls, poll_id) {
        Some(j) => j,
        None => {
            return Err(ServiceError::PollNotFound);
        },
    };
    let ghost sid = session_id.unwrap()@;
    let ghost i = choose|i: int|
        0 <= i < db.sessions@.len() && #[trigger] db.sessions@[i].id@ == sid
            && db.sessions@[i].user_id == user.id;
    if db.polls[j].user_id != user.id {
        proof {
            let ss = db.sessions@;
            let ps = db.polls@;
            assert forall|a: int, b: int|
                0 <= a < ss.len() && 0 <= b < ps.len() && #[trigger] ss[a].id@ == sid
                    && #[trigger] ps[b].id == poll_id implies ps[b].user_id != ss[a].user_id by {
                if a != i {
                    assert(session_id_key()(ss[a]) != session_id_key()(ss[i]));
                }
                if b != j as int {
                    assert(poll_id_key()(ps[b]) != poll_id_key()(ps[j as int]));
                }
            }
        }
        return Err(ServiceError::NotPermitted);
    }
    assert(db.sessions@[i].id@ == sid && db.polls@[j as int].id == poll_id);
    Ok(())
}

/// Checks that the caller holding cookie `session_id` owns the poll of
/// option `poll_option_id`.
pub fn authorize_option_edit(db: &Store, session_id: Option<&String>, poll_option_id: i32, now: u64) -> (r:
    Result<(), ServiceError>)
    requires
        db.wf(),
    ensures
        r == as_result(option_edit_error(*db, cookie_view(session_id), poll_option_id, now)),
{
    let user = get_user_by_session(db, session_id, now)?;
    let i = match find_option(&db.poll_options, poll_option_id) {
        Some(i) => i,
        None => {
            return Err(ServiceError::PollOptionNotFound);
        },
    };
    let j = match find_poll(&db.polls, db.poll_options[i].poll_id) {
        Some(j) => j,
        None => {
            proof {
                let os = db.poll_options@;
                let ps = db.polls@;
                assert forall|a: int, b: int|
                    0 <= a < os.len() && 0 <= b < ps.len() && #[trigger] os[a].id == poll_option_id
                        implies #[trigger] ps[b].id != os[a].poll_id by {
                    if a != i as int {
                        assert(option_id_key()(os[a]) != option_id_key()(os[i as int]));
                    }
                    if ps[b].id == os[a].poll_id {
                        assert(poll_id_key()(ps[b]) == os[i as int].poll_id);
                    }
                }
            }
            return Err(ServiceError::PollNotFound);
        },
    };
    let ghost sid = session_id.unwrap()@;
    let ghost si = choose|si: int|
        0 <= si < db.sessions@.len() && #[trigger] db.sessions@[si].id@ == sid
            && db.sessions@[si].user_id == user.id;
    if db.polls[j].user_id != user.id {
        proof {
            let ss = db.sessions@;
            let os = db.poll_options@;
            let ps = db.polls@;
            assert forall|a: int, k: int, b: int|
                0 <= a < ss.len() && 0 <= k < os.len() && 0 <= b < ps.len() && #[trigger] ss[a].id@
                    == sid && #[trigger] os[k].id == poll_option_id && #[trigger] ps[b].id
                    == os[k].poll_id implies ps[b].user_id != ss[a].user_id by {
                if a != si {
                    assert(session_id_key()(ss[a]) != session_id_key()(ss[si]));
                }
                if k != i as int {
                    assert(option_id_key()(os[k]) != option_id_key()(os[i as int]));
                }
                if b != j as int {
                    assert(poll_id_key()(ps[b]) != poll_id_key()(ps[j as int]));
                }
            }
        }
        return Err(ServiceError::NotPermitted);
    }
    assert(db.sessions@[si].id@ == sid && db.poll_options@[i as int].id == poll_option_id
        && db.polls@[j as int].id == db.poll_options@[i as int].poll_id);
    Ok(())
}

} // verus!
