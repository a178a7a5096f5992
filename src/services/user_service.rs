//! Accounts: registration, lookups, updates, pruning and login.
use vstd::prelude::*;
use crate::error::{ServiceError, ErrorCategory, category_of};
use crate::records::{User, Session};
use crate::seq_facts::{has_key, lemma_filter_unique, lemma_push_unique, lemma_update_unique, lemma_update_fresh_unique, lemma_filter_subset, lemma_filter_all};
use crate::store::{MAX_USER_SESSIONS, UNVERIFIED_USER_LIFETIME, Store, user_id_key, username_key, user_email_key, user_live, live_user, user_sessions, users_wf};
use crate::validate::{valid_username, valid_email, valid_password, rule, check_username, check_email, check_password};
use crate::crypto::{password_matches, readable_hash, hash_password, verify_password};
use crate::services::session_service::{not_of_user, create_session, has_session, latest};

verus! {

broadcast use vstd::seq_lib::group_seq_lib_default;

pub open spec fn has_live_user_id(us: Seq<User>, id: i32, now: u64) -> bool {
    exists|j: int| 0 <= j < us.len() && #[trigger] us[j].id == id && user_live(us[j], now)
}

pub open spec fn username_taken(us: Seq<User>, name: Seq<char>, now: u64) -> bool {
    exists|j: int| 0 <= j < us.len() && #[trigger] us[j].username@ == name && user_live(us[j], now)
}

pub open spec fn email_taken(us: Seq<User>, email: Seq<char>, now: u64) -> bool {
    exists|j: int| 0 <= j < us.len() && #[trigger] us[j].email@ == email && user_live(us[j], now)
}

/// The accounts that remain after pruning at `now`.
pub open spec fn pruned_users(us: Seq<User>, now: u64) -> Seq<User> {
    us.filter(live_user(now))
}

/// The first rule that a new account with this name and address breaks:
/// uniqueness first, then the lengths.
pub open spec fn account_error(us: Seq<User>, username: Seq<char>, email: Seq<char>, now: u64) -> Option<
    ServiceError,
> {
    if username_taken(us, username, now) {
        Some(ServiceError::UsernameInUse)
    } else if email_taken(us, email, now) {
        Some(ServiceError::EmailInUse)
    } else if !valid_username(username) {
        Some(ServiceError::UsernameLength)
    } else if !valid_email(email) {
        Some(ServiceError::EmailLength)
    } else {
        None
    }
}

/// The first rule that a registration breaks. A taken name or address is
/// reported whatever the password.
pub open spec fn registration_error(
    us: Seq<User>,
    username: Seq<char>,
    email: Seq<char>,
    password: Seq<char>,
    now: u64,
) -> Option<ServiceError> {
    match account_error(us, username, email, now) {
        Some(e) => Some(e),
        None => if valid_password(password) {
            None
        } else {
            Some(ServiceError::PasswordLength)
        },
    }
}

/// A login is refused unless a counting account has the address and accepts
/// the password; the refusal does not say which of the two failed.
pub open spec fn login_refusal(us: Seq<User>, email: Seq<char>, password: Seq<char>, now: u64) -> Option<
    ServiceError,
> {
    if exists|j: int|
        0 <= j < us.len() && #[trigger] us[j].email@ == email && user_live(us[j], now)
            && password_matches(password, us[j].password@) {
        None
    } else {
        Some(ServiceError::InvalidLogin)
    }
}

/// While an account counts, registering again with its name or its address
/// is refused as a conflict, whatever the password.
pub proof fn lemma_registration_conflict(
    us: Seq<User>,
    u: User,
    username: Seq<char>,
    email: Seq<char>,
    password: Seq<char>,
    now: u64,
)
    requires
        us.contains(u),
        user_live(u, now),
        username == u.username@ || email == u.email@,
    ensures
        registration_error(us, username, email, password, now) matches Some(e) && category_of(e)
            == ErrorCategory::Conflict,
{
    let j = choose|j: int| 0 <= j < us.len() && us[j] == u;
    if username == u.username@ {
        assert(us[j].username@ == username);
    } else {
        assert(us[j].email@ == email);
    }
}

/// A refused login does not tell an unknown address from a wrong password:
/// both come back as the same error, and so with the same message.
pub proof fn lemma_login_refusal_uniform(us: Seq<User>, email: Seq<char>, password: Seq<char>, now: u64)
    ensures
        !email_taken(us, email, now) ==> login_refusal(us, email, password, now) == Some(
            ServiceError::InvalidLogin,
        ),
        (forall|j: int|
            0 <= j < us.len() && #[trigger] us[j].email@ == email && user_live(us[j], now)
                ==> !password_matches(password, us[j].password@)) ==> login_refusal(
            us,
            email,
            password,
            now,
        ) == Some(ServiceError::InvalidLogin),
{
}

/// The account that `add_user` makes.
pub open spec fn new_user(id: i32, username: String, email: String, password_hash: String, now: u64) -> User {
    User { id, username, email, password: password_hash, verified: false, join_time: now }
}

/// A change to one column of an account.
pub enum UserUpdate {
    Username(String),
    Email(String),
    PasswordHash(String),
    Verified(bool),
}

pub open spec fn apply_update(u: User, c: UserUpdate) -> User {
    match c {
        UserUpdate::Username(n) => User { username: n, ..u },
        UserUpdate::Email(e) => User { email: e, ..u },
        UserUpdate::PasswordHash(h) => User { password: h, ..u },
        UserUpdate::Verified(v) => User { verified: v, ..u },
    }
}

/// The accounts after applying `c` to the account `id`.
pub open spec fn updated_users(us: Seq<User>, id: i32, c: UserUpdate) -> Seq<User> {
    us.map_values(|u: User| if u.id == id { apply_update(u, c) } else { u })
}

pub open spec fn not_user(id: i32) -> spec_fn(User) -> bool {
    |u: User| u.id != id
}

fn is_live(u: &User, now: u64) -> (r: bool)
    ensures
        r == user_live(*u, now),
{
    u.verified || now < u.join_time || now - u.join_time < UNVERIFIED_USER_LIFETIME
}

pub(crate) fn find_user_by_id(us: &Vec<User>, id: i32, now: u64) -> (r: Option<usize>)
    ensures
        r matches Some(j) ==> j < us@.len() && us@[j as int].id == id && user_live(us@[j as int], now),
        r is None ==> !has_live_user_id(us@, id, now),
{
    let mut i: usize = 0;
    while i < us.len()
        invariant
            i <= us@.len(),
            forall|k: int| 0 <= k < i ==> !(us@[k].id == id && user_live(us@[k], now)),
        decreases us@.len() - i,
    {
        if us[i].id == id && is_live(&us[i], now) {
            return Some(i);
        }
        i += 1;
    }
    None
}

fn find_user_by_username(us: &Vec<User>, name: &String, now: u64) -> (r: Option<usize>)
    ensures
        r matches Some(j) ==> j < us@.len() && us@[j as int].username@ == name@ && user_live(
            us@[j as int],
            now,
        ),
        r is None ==> !username_taken(us@, name@, now),
{
    let mut i: usize = 0;
    while i < us.len()
        invariant
            i <= us@.len(),
            forall|k: int| 0 <= k < i ==> !(us@[k].username@ == name@ && user_live(us@[k], now)),
        decreases us@.len() - i,
    {
        if us[i].username == *name && is_live(&us[i], now) {
            return Some(i);
        }
        i += 1;
    }
    None
}

pub(crate) fn find_user_by_email(us: &Vec<User>, email: &String, now: u64) -> (r: Option<usize>)
    ensures
        r matches Some(j) ==> j < us@.len() && us@[j as int].email@ == email@ && user_live(
            us@[j as int],
            now,
        ),
        r is None ==> !email_taken(us@, email@, now),
{
    let mut i: usize = 0;
    while i < us.len()
        invariant
            i <= us@.len(),
            forall|k: int| 0 <= k < i ==> !(us@[k].email@ == email@ && user_live(us@[k], now)),
        decreases us@.len() - i,
    {
        if us[i].email == *email && is_live(&us[i], now) {
            return Some(i);
        }
        i += 1;
    }
    None
}

/// Pruning removes only accounts that no longer count, so every lookup
/// answers the same before and after it.
proof fn lemma_pruned_same(us: Seq<User>, now: u64, id: i32, name: Seq<char>, email: Seq<char>)
    ensures
        has_live_user_id(pruned_users(us, now), id, now) == has_live_user_id(us, id, now),
        username_taken(pruned_users(us, now), name, now) == username_taken(us, name, now),
        email_taken(pruned_users(us, now), email, now) == email_taken(us, email, now),
        forall|k: int|
            0 <= k < pruned_users(us, now).len() ==> user_live(
                #[trigger] pruned_users(us, now)[k],
                now,
            ) && us.contains(pruned_users(us, now)[k]),
        forall|k: int|
            0 <= k < us.len() && !user_live(us[k], now) ==> !#[trigger] us[k].verified,
{
    let p = pruned_users(us, now);
    assert forall|k: int| 0 <= k < p.len() implies user_live(#[trigger] p[k], now) && us.contains(
        p[k],
    ) by {
        lemma_filter_subset(us, live_user(now), k);
    }
    if has_live_user_id(us, id, now) {
        let j = choose|j: int| 0 <= j < us.len() && #[trigger] us[j].id == id && user_live(us[j], now);
        us.lemma_filter_contains(live_user(now), j);
        let k = choose|k: int| 0 <= k < p.len() && p[k] == us[j];
        assert(p[k].id == id);
    }
    if username_taken(us, name, now) {
        let j = choose|j: int|
            0 <= j < us.len() && #[trigger] us[j].username@ == name && user_live(us[j], now);
        us.lemma_filter_contains(live_user(now), j);
        let k = choose|k: int| 0 <= k < p.len() && p[k] == us[j];
        assert(p[k].username@ == name);
    }
    if email_taken(us, email, now) {
        let j = choose|j: int|
            0 <= j < us.len() && #[trigger] us[j].email@ == email && user_live(us[j], now);
        us.lemma_filter_contains(live_user(now), j);
        let k = choose|k: int| 0 <= k < p.len() && p[k] == us[j];
        assert(p[k].email@ == email);
    }
    if has_live_user_id(p, id, now) {
        let k = choose|k: int| 0 <= k < p.len() && #[trigger] p[k].id == id && user_live(p[k], now);
        assert(us.contains(p[k]));
    }
    if username_taken(p, name, now) {
        let k = choose|k: int|
            0 <= k < p.len() && #[trigger] p[k].username@ == name && user_live(p[k], now);
        assert(us.contains(p[k]));
    }
    if email_taken(p, email, now) {
        let k = choose|k: int|
            0 <= k < p.len() && #[trigger] p[k].email@ == email && user_live(p[k], now);
        assert(us.contains(p[k]));
    }
}

proof fn lemma_filter_users_wf(us: Seq<User>, next_id: i32, p: spec_fn(User) -> bool)
    requires
        users_wf(us, next_id),
    ensures
        users_wf(us.filter(p), next_id),
{
    lemma_filter_unique(us, user_id_key(), p);
    lemma_filter_unique(us, username_key(), p);
    lemma_filter_unique(us, user_email_key(), p);
    assert forall|i: int| 0 <= i < us.filter(p).len() implies #[trigger] us.filter(p)[i].id
        < next_id by {
        lemma_filter_subset(us, p, i);
    }
    assert forall|i: int| 0 <= i < us.filter(p).len() implies readable_hash(
        #[trigger] us.filter(p)[i].password@,
    ) by {
        lemma_filter_subset(us, p, i);
        let k = choose|k: int| 0 <= k < us.len() && us[k] == us.filter(p)[i];
        assert(readable_hash(us[k].password@));
    }
}

/// Removes the unverified accounts whose grace period has ended at `now`.
pub fn prune_unverified_users(db: &mut Store, now: u64)
    requires
        old(db).wf(),
    ensures
        final(db).wf(),
        final(db).users@ == pruned_users(old(db).users@, now),
        final(db).next_user_id == old(db).next_user_id,
        final(db).hash_cost == old(db).hash_cost,
        final(db).same_sessions(old(db)),
        final(db).same_tokens(old(db)),
        final(db).same_polls(old(db)),
{
    let us = &db.users;
    let mut out: Vec<User> = Vec::new();
    let mut i: usize = 0;
    while i < us.len()
        invariant
            i <= us@.len(),
            out@ == us@.take(i as int).filter(live_user(now)),
        decreases us@.len() - i,
    {
        proof {
            assert(us@.take(i + 1) == us@.take(i as int).push(us@[i as int]));
            us@.take(i as int).lemma_filter_push(us@[i as int], live_user(now));
        }
        if is_live(&us[i], now) {
            out.push(us[i].cloned());
        }
        i += 1;
    }
    proof {
        assert(us@.take(us@.len() as int) == us@);
        lemma_filter_users_wf(us@, db.next_user_id, live_user(now));
    }
    db.users = out;
}

/// Whether an account `user_id` counts at `now`.
pub fn user_exists(db: &Store, user_id: i32, now: u64) -> (r: bool)
    ensures
        r == has_live_user_id(db.users@, user_id, now),
{
    find_user_by_id(&db.users, user_id, now).is_some()
}

/// Whether an account named `username` counts at `now`.
pub fn user_exists_for_username(db: &Store, username: &String, now: u64) -> (r: bool)
    ensures
        r == username_taken(db.users@, username@, now),
{
    find_user_by_username(&db.users, username, now).is_some()
}

/// Whether an account with address `email` counts at `now`.
pub fn user_exists_for_email(db: &Store, email: &String, now: u64) -> (r: bool)
    ensures
        r == email_taken(db.users@, email@, now),
{
    find_user_by_email(&db.users, email, now).is_some()
}

/// The account `user_id`.
pub fn get_user(db: &Store, user_id: i32, now: u64) -> (r: Result<User, ServiceError>)
    requires
        db.wf(),
    ensures
        r matches Ok(u) ==> db.users@.contains(u) && u.id == user_id && user_live(u, now),
        r is Err <==> !has_live_user_id(db.users@, user_id, now),
        r is Err ==> r == Err::<User, ServiceError>(ServiceError::UserNotFound),
{
    match find_user_by_id(&db.users, user_id, now) {
        Some(j) => Ok(db.users[j].cloned()),
        None => Err(ServiceError::UserNotFound),
    }
}

/// The account named `username`.
pub fn get_user_by_username(db: &Store, username: &String, now: u64) -> (r: Result<
    User,
    ServiceError,
>)
    requires
        db.wf(),
    ensures
        r matches Ok(u) ==> db.users@.contains(u) && u.username@ == username@ && user_live(u, now),
        r is Err <==> !username_taken(db.users@, username@, now),
        r is Err ==> r == Err::<User, ServiceError>(ServiceError::UserNotFound),
{
    match find_user_by_username(&db.users, username, now) {
        Some(j) => Ok(db.users[j].cloned()),
        None => Err(ServiceError::UserNotFound),
    }
}

/// The account with address `email`.
pub fn get_user_by_email(db: &Store, email: &String, now: u64) -> (r: Result<User, ServiceError>)
    requires
        db.wf(),
    ensures
        r matches Ok(u) ==> db.users@.contains(u) && u.email@ == email@ && user_live(u, now),
        r is Err <==> !email_taken(db.users@, email@, now),
        r is Err ==> r == Err::<User, ServiceError>(ServiceError::UserNotFound),
{
    match find_user_by_email(&db.users, email, now) {
        Some(j) => Ok(db.users[j].cloned()),
        None => Err(ServiceError::UserNotFound),
    }
}

/// Checks a registration against the accounts that count at `now`.
pub fn check_registration(
    db: &Store,
    username: &String,
    email: &String,
    password: &String,
    now: u64,
) -> (r: Result<(), ServiceError>)
    ensures
        r == match registration_error(db.users@, username@, email@, password@, now) {
            Some(e) => Err(e),
            None => Ok::<(), ServiceError>(()),
        },
{
    if user_exists_for_username(db, username, now) {
        return Err(ServiceError::UsernameInUse);
    }
    if user_exists_for_email(db, email, now) {
        return Err(ServiceError::EmailInUse);
    }
    check_username(username)?;
    check_email(email)?;
    check_password(password)?;
    Ok(())
}

proof fn lemma_pruned_fresh(us: Seq<User>, now: u64, name: Seq<char>, email: Seq<char>)
    ensures
        !username_taken(us, name, now) ==> !has_key(pruned_users(us, now), username_key(), name),
        !email_taken(us, email, now) ==> !has_key(pruned_users(us, now), user_email_key(), email),
        pruned_users(pruned_users(us, now), now) == pruned_users(us, now),
{
    let p = pruned_users(us, now);
    lemma_pruned_same(us, now, 0, name, email);
    if has_key(p, username_key(), name) {
        let i = choose|i: int| 0 <= i < p.len() && #[trigger] username_key()(p[i]) == name;
        assert(p[i].username@ == name && user_live(p[i], now));
    }
    if has_key(p, user_email_key(), email) {
        let i = choose|i: int| 0 <= i < p.len() && #[trigger] user_email_key()(p[i]) == email;
        assert(p[i].email@ == email && user_live(p[i], now));
    }
    lemma_filter_all(p, live_user(now));
}

/// Adds an unverified account whose password hash is `password_hash`, after
/// pruning at `now`. The name and address must be free and of valid length;
/// the hash must be one that `bcrypt::verify` can read.
pub fn add_user(db: &mut Store, username: String, email: String, password_hash: String, now: u64) -> (r:
    Result<User, ServiceError>)
    requires
        old(db).wf(),
        readable_hash(password_hash@),
    ensures
        final(db).wf(),
        final(db).hash_cost == old(db).hash_cost,
        final(db).same_sessions(old(db)),
        final(db).same_tokens(old(db)),
        final(db).same_polls(old(db)),
        account_error(old(db).users@, username@, email@, now) matches Some(e) ==> r == Err::<
            User,
            ServiceError,
        >(e),
        account_error(old(db).users@, username@, email@, now) is None && old(db).next_user_id
            == i32::MAX ==> r == Err::<User, ServiceError>(ServiceError::IdsExhausted),
        account_error(old(db).users@, username@, email@, now) is None && old(db).next_user_id
            < i32::MAX ==> r == Ok::<User, ServiceError>(
            new_user(old(db).next_user_id, username, email, password_hash, now),
        ),
        r matches Ok(u) ==> final(db).users@ == pruned_users(old(db).users@, now).push(u)
            && final(db).next_user_id == old(db).next_user_id + 1,
        r is Err ==> final(db).users@ == pruned_users(old(db).users@, now) && final(db).next_user_id
            == old(db).next_user_id,
{
    proof {
        lemma_pruned_same(old(db).users@, now, 0, username@, email@);
    }
    prune_unverified_users(db, now);
    if user_exists_for_username(db, &username, now) {
        return Err(ServiceError::UsernameInUse);
    }
    if user_exists_for_email(db, &email, now) {
        return Err(ServiceError::EmailInUse);
    }
    check_username(&username)?;
    check_email(&email)?;
    if db.next_user_id == i32::MAX {
        return Err(ServiceError::IdsExhausted);
    }
    let u = User {
        id: db.next_user_id,
        username,
        email,
        password: password_hash,
        verified: false,
        join_time: now,
    };
    proof {
        let p = db.users@;
        lemma_pruned_fresh(old(db).users@, now, u.username@, u.email@);
        assert(!has_key(p, user_id_key(), u.id)) by {
            if has_key(p, user_id_key(), u.id) {
                let i = choose|i: int| 0 <= i < p.len() && #[trigger] user_id_key()(p[i]) == u.id;
                assert(p[i].id < db.next_user_id);
            }
        }
        lemma_push_unique(p, user_id_key(), u);
        lemma_push_unique(p, username_key(), u);
        lemma_push_unique(p, user_email_key(), u);
    }
    db.users.push(u.cloned());
    db.next_user_id = db.next_user_id + 1;
    Ok(u)
}

/// Registers an account: prunes at `now`, checks the rules of
/// `registration_error`, hashes the password with the store's cost and adds
/// the account unverified.
pub fn create_user(db: &mut Store, username: String, email: String, password: String, now: u64) -> (r:
    Result<User, ServiceError>)
    requires
        old(db).wf(),
    ensures
        final(db).wf(),
        final(db).hash_cost == old(db).hash_cost,
        final(db).same_sessions(old(db)),
        final(db).same_tokens(old(db)),
        final(db).same_polls(old(db)),
        registration_error(old(db).users@, username@, email@, password@, now) matches Some(e) ==> r
            == Err::<User, ServiceError>(e),
        registration_error(old(db).users@, username@, email@, password@, now) is None ==> {
            ||| r == Err::<User, ServiceError>(ServiceError::HashFailed)
            ||| r == Err::<User, ServiceError>(ServiceError::IdsExhausted) && old(db).next_user_id
                == i32::MAX
            ||| r is Ok
        },
        registration_error(old(db).users@, username@, email@, password@, now) is None && (old(db).hash_cost < 4 || old(db).hash_cost > 31) ==> r == Err::<User, ServiceError>(
            ServiceError::HashFailed,
        ),
        r matches Ok(u) ==> {
            &&& u == new_user(old(db).next_user_id, username, email, u.password, now)
            &&& password_matches(password@, u.password@)
            &&& final(db).users@ == pruned_users(old(db).users@, now).push(u)
            &&& final(db).next_user_id == old(db).next_user_id + 1
        },
        r is Err ==> final(db).users@ == pruned_users(old(db).users@, now) && final(db).next_user_id
            == old(db).next_user_id,
{
    proof {
        lemma_pruned_same(old(db).users@, now, 0, username@, email@);
    }
    prune_unverified_users(db, now);
    check_registration(db, &username, &email, &password, now)?;
    let hash = match hash_password(&password, db.hash_cost) {
        Ok(h) => h,
        Err(_) => {
            return Err(ServiceError::HashFailed);
        },
    };
    let ghost h = hash;
    proof {
        lemma_pruned_fresh(old(db).users@, now, username@, email@);
        lemma_pruned_same(db.users@, now, 0, username@, email@);
    }
    let r = add_user(db, username, email, hash, now);
    proof {
        if r is Ok {
            assert(r == Ok::<User, ServiceError>(
                new_user(old(db).next_user_id, username, email, h, now),
            ));
        }
    }
    r
}

fn find_user_row(us: &Vec<User>, id: i32) -> (r: Option<usize>)
    ensures
        r matches Some(j) ==> j < us@.len() && us@[j as int].id == id,
        r is None ==> forall|k: int| 0 <= k < us@.len() ==> us@[k].id != id,
{
    let mut i: usize = 0;
    while i < us.len()
        invariant
            i <= us@.len(),
            forall|k: int| 0 <= k < i ==> us@[k].id != id,
        decreases us@.len() - i,
    {
        if us[i].id == id {
            return Some(i);
        }
        i += 1;
    }
    None
}

/// Applies `c` to the account `user_id`; nothing changes when there is none.
/// A new name or address must not belong to any account, and a new password
/// hash must be one that `bcrypt::verify` can read.
pub fn update_user(db: &mut Store, user_id: i32, c: UserUpdate)
    requires
        old(db).wf(),
        c matches UserUpdate::Username(n) ==> !has_key(old(db).users@, username_key(), n@),
        c matches UserUpdate::Email(e) ==> !has_key(old(db).users@, user_email_key(), e@),
        c matches UserUpdate::PasswordHash(h) ==> readable_hash(h@),
    ensures
        final(db).wf(),
        final(db).users@ == updated_users(old(db).users@, user_id, c),
        final(db).next_user_id == old(db).next_user_id,
        final(db).hash_cost == old(db).hash_cost,
        final(db).same_sessions(old(db)),
        final(db).same_tokens(old(db)),
        final(db).same_polls(old(db)),
{
    let ghost gc = c;
    let ghost us = db.users@;
    match find_user_row(&db.users, user_id) {
        None => {
            assert(db.users@ =~= updated_users(us, user_id, gc));
        },
        Some(j) => {
            let mut u = db.users[j].cloned();
            match c {
                UserUpdate::Username(n) => {
                    u.username = n;
                },
                UserUpdate::Email(e) => {
                    u.email = e;
                },
                UserUpdate::PasswordHash(h) => {
                    u.password = h;
                },
                UserUpdate::Verified(v) => {
                    u.verified = v;
                },
            }
            proof {
                assert(u == apply_update(us[j as int], gc));
                lemma_update_unique(us, user_id_key(), j as int, u);
                lemma_update_fresh_unique(us, username_key(), j as int, u);
                lemma_update_fresh_unique(us, user_email_key(), j as int, u);
                assert forall|k: int| 0 <= k < us.len() && k != j implies us[k].id != user_id by {
                    assert(user_id_key()(us[k]) != user_id_key()(us[j as int]));
                }
            }
            db.users.set(j, u);
            assert(db.users@ =~= updated_users(us, user_id, gc));
        },
    }
}

/// Renames the account `user_id`, after pruning at `now`. A name in use,
/// even by the same account, is refused.
pub fn set_username(db: &mut Store, user_id: i32, username: String, now: u64) -> (r: Result<
    (),
    ServiceError,
>)
    requires
        old(db).wf(),
    ensures
        final(db).wf(),
        r == if username_taken(old(db).users@, username@, now) {
            Err::<(), ServiceError>(ServiceError::UsernameInUse)
        } else {
            rule(valid_username(username@), ServiceError::UsernameLength)
        },
        r is Ok ==> final(db).users@ == updated_users(
            pruned_users(old(db).users@, now),
            user_id,
            UserUpdate::Username(username),
        ),
        r is Err ==> final(db).users@ == pruned_users(old(db).users@, now),
        final(db).next_user_id == old(db).next_user_id,
        final(db).hash_cost == old(db).hash_cost,
        final(db).same_sessions(old(db)),
        final(db).same_tokens(old(db)),
        final(db).same_polls(old(db)),
{
    proof {
        lemma_pruned_same(old(db).users@, now, 0, username@, Seq::empty());
    }
    prune_unverified_users(db, now);
    if user_exists_for_username(db, &username, now) {
        return Err(ServiceError::UsernameInUse);
    }
    check_username(&username)?;
    proof {
        lemma_pruned_fresh(old(db).users@, now, username@, Seq::empty());
    }
    update_user(db, user_id, UserUpdate::Username(username));
    Ok(())
}

/// Changes the address of the account `user_id`, after pruning at `now`. An
/// address in use, even by the same account, is refused.
pub fn set_email(db: &mut Store, user_id: i32, email: String, now: u64) -> (r: Result<
    (),
    ServiceError,
>)
    requires
        old(db).wf(),
    ensures
        final(db).wf(),
        r == if email_taken(old(db).users@, email@, now) {
            Err::<(), ServiceError>(ServiceError::EmailInUse)
        } else {
            rule(valid_email(email@), ServiceError::EmailLength)
        },
        r is Ok ==> final(db).users@ == updated_users(
            pruned_users(old(db).users@, now),
            user_id,
            UserUpdate::Email(email),
        ),
        r is Err ==> final(db).users@ == pruned_users(old(db).users@, now),
        final(db).next_user_id == old(db).next_user_id,
        final(db).hash_cost == old(db).hash_cost,
        final(db).same_sessions(old(db)),
        final(db).same_tokens(old(db)),
        final(db).same_polls(old(db)),
{
    proof {
        lemma_pruned_same(old(db).users@, now, 0, Seq::empty(), email@);
    }
    prune_unverified_users(db, now);
    if user_exists_for_email(db, &email, now) {
        return Err(ServiceError::EmailInUse);
    }
    check_email(&email)?;
    proof {
        lemma_pruned_fresh(old(db).users@, now, Seq::empty(), email@);
    }
    update_user(db, user_id, UserUpdate::Email(email));
    Ok(())
}

/// Changes the password of the account `user_id`, after pruning at `now`.
/// The new hash is made with the store's cost.
pub fn set_password(db: &mut Store, user_id: i32, password: &String, now: u64) -> (r: Result<
    (),
    ServiceError,
>)
    requires
        old(db).wf(),
    ensures
        final(db).wf(),
        !valid_password(password@) ==> r == Err::<(), ServiceError>(ServiceError::PasswordLength),
        valid_password(password@) ==> r is Ok || r == Err::<(), ServiceError>(
            ServiceError::HashFailed,
        ),
        valid_password(password@) && (old(db).hash_cost < 4 || old(db).hash_cost > 31) ==> r
            == Err::<(), ServiceError>(ServiceError::HashFailed),
        r is Ok ==> exists|h: String|
            password_matches(password@, h@) && final(db).users@ == updated_users(
                pruned_users(old(db).users@, now),
                user_id,
                UserUpdate::PasswordHash(h),
            ),
        r is Err ==> final(db).users@ == pruned_users(old(db).users@, now),
        final(db).next_user_id == old(db).next_user_id,
        final(db).hash_cost == old(db).hash_cost,
        final(db).same_sessions(old(db)),
        final(db).same_tokens(old(db)),
        final(db).same_polls(old(db)),
{
    prune_unverified_users(db, now);
    check_password(password)?;
    let hash = match hash_password(password, db.hash_cost) {
        Ok(h) => h,
        Err(_) => {
            return Err(ServiceError::HashFailed);
        },
    };
    let ghost h = hash;
    update_user(db, user_id, UserUpdate::PasswordHash(hash));
    assert(password_matches(password@, h@));
    Ok(())
}

/// Sets whether the account `user_id` is verified, after pruning at `now`.
pub fn set_verified(db: &mut Store, user_id: i32, verified: bool, now: u64)
    requires
        old(db).wf(),
    ensures
        final(db).wf(),
        final(db).users@ == updated_users(
            pruned_users(old(db).users@, now),
            user_id,
            UserUpdate::Verified(verified),
        ),
        final(db).next_user_id == old(db).next_user_id,
        final(db).hash_cost == old(db).hash_cost,
        final(db).same_sessions(old(db)),
        final(db).same_tokens(old(db)),
        final(db).same_polls(old(db)),
{
    prune_unverified_users(db, now);
    update_user(db, user_id, UserUpdate::Verified(verified));
}

/// Deletes the account `user_id`, after pruning at `now`.
pub fn delete_user(db: &mut Store, user_id: i32, now: u64)
    requires
        old(db).wf(),
    ensures
        final(db).wf(),
        final(db).users@ == pruned_users(old(db).users@, now).filter(not_user(user_id)),
        final(db).next_user_id == old(db).next_user_id,
        final(db).hash_cost == old(db).hash_cost,
        final(db).same_sessions(old(db)),
        final(db).same_tokens(old(db)),
        final(db).same_polls(old(db)),
{
    prune_unverified_users(db, now);
    let us = &db.users;
    let mut out: Vec<User> = Vec::new();
    let mut i: usize = 0;
    while i < us.len()
        invariant
            i <= us@.len(),
            out@ == us@.take(i as int).filter(not_user(user_id)),
        decreases us@.len() - i,
    {
        proof {
            assert(us@.take(i + 1) == us@.take(i as int).push(us@[i as int]));
            us@.take(i as int).lemma_filter_push(us@[i as int], not_user(user_id));
        }
        if us[i].id != user_id {
            out.push(us[i].cloned());
        }
        i += 1;
    }
    proof {
        assert(us@.take(us@.len() as int) == us@);
        lemma_filter_users_wf(us@, db.next_user_id, not_user(user_id));
    }
    db.users = out;
}

/// Logs in with an address and a password, after pruning at `now`, and opens
/// session `session_id` for the account.
pub fn login(db: &mut Store, email: &String, password: &String, session_id: String, now: u64) -> (r:
    Result<Session, ServiceError>)
    requires
        old(db).wf(),
    ensures
        final(db).wf(),
        final(db).users@ == pruned_users(old(db).users@, now),
        final(db).next_user_id == old(db).next_user_id,
        final(db).hash_cost == old(db).hash_cost,
        final(db).same_tokens(old(db)),
        final(db).same_polls(old(db)),
        login_refusal(old(db).users@, email@, password@, now) matches Some(e) ==> r == Err::<
            Session,
            ServiceError,
        >(e),
        !email_taken(old(db).users@, email@, now) ==> r == Err::<Session, ServiceError>(
            ServiceError::InvalidLogin,
        ),
        login_refusal(old(db).users@, email@, password@, now) is None ==> if has_session(
            old(db).sessions@,
            session_id@,
        ) {
            r == Err::<Session, ServiceError>(ServiceError::DuplicateToken)
        } else {
            r is Ok
        },
        r is Err ==> final(db).sessions@ == old(db).sessions@,
        r matches Ok(s) ==> {
            &&& s == Session { id: session_id, user_id: s.user_id, create_time: now }
            &&& exists|j: int|
                0 <= j < old(db).users@.len() && #[trigger] old(db).users@[j].id == s.user_id
                    && old(db).users@[j].email@ == email@ && user_live(old(db).users@[j], now)
                    && password_matches(password@, old(db).users@[j].password@)
            &&& user_sessions(final(db).sessions@, s.user_id) == latest(
                user_sessions(old(db).sessions@, s.user_id).push(s),
                MAX_USER_SESSIONS as nat,
            )
            &&& forall|v: i32|
                v != s.user_id ==> #[trigger] user_sessions(final(db).sessions@, v)
                    == user_sessions(old(db).sessions@, v)
            &&& final(db).sessions@.filter(not_of_user(s.user_id)) == old(db).sessions@.filter(
                not_of_user(s.user_id),
            )
        },
{
    let ghost us = old(db).users@;
    proof {
        lemma_pruned_same(us, now, 0, Seq::empty(), email@);
    }
    prune_unverified_users(db, now);
    let j = match find_user_by_email(&db.users, email, now) {
        Some(j) => j,
        None => {
            proof {
                if exists|j: int|
                    0 <= j < us.len() && #[trigger] us[j].email@ == email@ && user_live(us[j], now)
                        && password_matches(password@, us[j].password@) {
                    let j = choose|j: int|
                        0 <= j < us.len() && #[trigger] us[j].email@ == email@ && user_live(
                            us[j],
                            now,
                        ) && password_matches(password@, us[j].password@);
                    assert(email_taken(us, email@, now));
                }
            }
            return Err(ServiceError::InvalidLogin);
        },
    };
    let uid = db.users[j].id;
    let ghost u = db.users@[j as int];
    proof {
        assert(us.contains(u));
        let k = choose|k: int| 0 <= k < us.len() && us[k] == u;
        assert forall|m: int|
            0 <= m < us.len() && #[trigger] us[m].email@ == email@ && user_live(us[m], now)
                implies us[m] == u by {
            if m != k {
                assert(user_email_key()(us[m]) != user_email_key()(us[k]));
            }
        }
    }
    match verify_password(password, &db.users[j].password) {
        Err(_) => {
            return Err(ServiceError::HashCheckFailed);
        },
        Ok(false) => {
            return Err(ServiceError::InvalidLogin);
        },
        Ok(true) => {},
    }
    create_session(db, uid, session_id, now)
}

} // verus!
