//! The rules shared by the two one-time token tables: expiry, one pending
//! token per address, and single use.
use vstd::prelude::*;
use crate::error::ServiceError;
use crate::records::{Token, User};
use crate::seq_facts::{has_key, lemma_filter_unique, lemma_push_unique, lemma_filter_subset, lemma_filter_all};
use crate::services::user_service::find_user_by_email;
use crate::store::{token_id_key, token_email_key, token_live, live_token, tokens_wf, user_live};

verus! {

broadcast use vstd::seq_lib::group_seq_lib_default;

/// Some token, expired or not, has id `id`.
pub open spec fn has_token_id(ts: Seq<Token>, id: Seq<char>) -> bool {
    has_key(ts, token_id_key(), id)
}

/// A token `id` is pending and unexpired at `now`.
pub open spec fn token_valid(ts: Seq<Token>, id: Seq<char>, now: u64, lifetime: u64) -> bool {
    exists|i: int| 0 <= i < ts.len() && #[trigger] ts[i].id@ == id && token_live(ts[i], now, lifetime)
}

/// A token for address `email` is pending and unexpired at `now`.
pub open spec fn token_for_email(ts: Seq<Token>, email: Seq<char>, now: u64, lifetime: u64) -> bool {
    exists|i: int|
        0 <= i < ts.len() && #[trigger] ts[i].email@ == email && token_live(ts[i], now, lifetime)
}

/// A valid token `id` names the address of an account that counts at `now`.
pub open spec fn token_user_exists(
    ts: Seq<Token>,
    us: Seq<User>,
    id: Seq<char>,
    now: u64,
    lifetime: u64,
) -> bool {
    exists|i: int, j: int|
        0 <= i < ts.len() && 0 <= j < us.len() && #[trigger] ts[i].id@ == id && token_live(
            ts[i],
            now,
            lifetime,
        ) && #[trigger] us[j].email@ == ts[i].email@ && user_live(us[j], now)
}

/// The tokens that remain after pruning at `now`.
pub open spec fn pruned_tokens(ts: Seq<Token>, now: u64, lifetime: u64) -> Seq<Token> {
    ts.filter(live_token(now, lifetime))
}

pub open spec fn not_token(id: Seq<char>) -> spec_fn(Token) -> bool {
    |t: Token| t.id@ != id
}

/// The tokens after pruning at `now` and then using up token `id`.
pub open spec fn consumed(ts: Seq<Token>, id: Seq<char>, now: u64, lifetime: u64) -> Seq<Token> {
    pruned_tokens(ts, now, lifetime).filter(not_token(id))
}

/// A used token is gone: it is never valid again, whenever it is presented.
pub proof fn lemma_token_single_use(ts: Seq<Token>, id: Seq<char>, now: u64, later: u64, lifetime: u64)
    ensures
        !token_valid(consumed(ts, id, now, lifetime), id, later, lifetime),
{
    let c = consumed(ts, id, now, lifetime);
    if token_valid(c, id, later, lifetime) {
        let i = choose|i: int|
            0 <= i < c.len() && #[trigger] c[i].id@ == id && token_live(c[i], later, lifetime);
        lemma_filter_subset(pruned_tokens(ts, now, lifetime), not_token(id), i);
    }
}

fn is_live(t: &Token, now: u64, lifetime: u64) -> (r: bool)
    ensures
        r == token_live(*t, now, lifetime),
{
    now < t.create_time || now - t.create_time < lifetime
}

pub(crate) fn find_token(ts: &Vec<Token>, id: &String, now: u64, lifetime: u64) -> (r: Option<usize>)
    ensures
        r matches Some(i) ==> i < ts@.len() && ts@[i as int].id@ == id@ && token_live(
            ts@[i as int],
            now,
            lifetime,
        ),
        r is None ==> !token_valid(ts@, id@, now, lifetime),
{
    let mut i: usize = 0;
    while i < ts.len()
        invariant
            i <= ts@.len(),
            forall|k: int| 0 <= k < i ==> !(ts@[k].id@ == id@ && token_live(ts@[k], now, lifetime)),
        decreases ts@.len() - i,
    {
        if ts[i].id == *id && is_live(&ts[i], now, lifetime) {
            return Some(i);
        }
        i += 1;
    }
    None
}

pub(crate) fn find_token_for_email(ts: &Vec<Token>, email: &String, now: u64, lifetime: u64) -> (r:
    Option<usize>)
    ensures
        r matches Some(i) ==> i < ts@.len() && ts@[i as int].email@ == email@ && token_live(
            ts@[i as int],
            now,
            lifetime,
        ),
        r is None ==> !token_for_email(ts@, email@, now, lifetime),
{
    let mut i: usize = 0;
    while i < ts.len()
        invariant
            i <= ts@.len(),
            forall|k: int|
                0 <= k < i ==> !(ts@[k].email@ == email@ && token_live(ts@[k], now, lifetime)),
        decreases ts@.len() - i,
    {
        if ts[i].email == *email && is_live(&ts[i], now, lifetime) {
            return Some(i);
        }
        i += 1;
    }
    None
}

fn find_token_row(ts: &Vec<Token>, id: &String) -> (r: bool)
    ensures
        r == has_key(ts@, token_id_key(), id@),
{
    let mut i: usize = 0;
    while i < ts.len()
        invariant
            i <= ts@.len(),
            forall|k: int| 0 <= k < i ==> ts@[k].id@ != id@,
        decreases ts@.len() - i,
    {
        if ts[i].id == *id {
            assert(token_id_key()(ts@[i as int]) == id@);
            return true;
        }
        i += 1;
    }
    assert forall|k: int| 0 <= k < ts@.len() implies #[trigger] token_id_key()(ts@[k]) != id@ by {
        assert(ts@[k].id@ != id@);
    }
    false
}

/// Pruning keeps exactly the live tokens, so lookups answer the same.
pub proof fn lemma_pruned_tokens(ts: Seq<Token>, now: u64, lifetime: u64, id: Seq<char>, email: Seq<
    char,
>)
    ensures
        token_valid(pruned_tokens(ts, now, lifetime), id, now, lifetime) == token_valid(
            ts,
            id,
            now,
            lifetime,
        ),
        token_for_email(pruned_tokens(ts, now, lifetime), email, now, lifetime) == token_for_email(
            ts,
            email,
            now,
            lifetime,
        ),
        forall|k: int|
            0 <= k < pruned_tokens(ts, now, lifetime).len() ==> token_live(
                #[trigger] pruned_tokens(ts, now, lifetime)[k],
                now,
                lifetime,
            ) && ts.contains(pruned_tokens(ts, now, lifetime)[k]),
        pruned_tokens(pruned_tokens(ts, now, lifetime), now, lifetime) == pruned_tokens(
            ts,
            now,
            lifetime,
        ),
{
    let p = pruned_tokens(ts, now, lifetime);
    let f = live_token(now, lifetime);
    assert forall|k: int| 0 <= k < p.len() implies token_live(#[trigger] p[k], now, lifetime)
        && ts.contains(p[k]) by {
        lemma_filter_subset(ts, f, k);
    }
    lemma_filter_all(p, f);
    if token_valid(ts, id, now, lifetime) {
        let j = choose|j: int|
            0 <= j < ts.len() && #[trigger] ts[j].id@ == id && token_live(ts[j], now, lifetime);
        ts.lemma_filter_contains(f, j);
        let k = choose|k: int| 0 <= k < p.len() && p[k] == ts[j];
        assert(p[k].id@ == id);
    }
    if token_for_email(ts, email, now, lifetime) {
        let j = choose|j: int|
            0 <= j < ts.len() && #[trigger] ts[j].email@ == email && token_live(ts[j], now, lifetime);
        ts.lemma_filter_contains(f, j);
        let k = choose|k: int| 0 <= k < p.len() && p[k] == ts[j];
        assert(p[k].email@ == email);
    }
    if token_valid(p, id, now, lifetime) {
        let k = choose|k: int|
            0 <= k < p.len() && #[trigger] p[k].id@ == id && token_live(p[k], now, lifetime);
        assert(ts.contains(p[k]));
    }
    if token_for_email(p, email, now, lifetime) {
        let k = choose|k: int|
            0 <= k < p.len() && #[trigger] p[k].email@ == email && token_live(p[k], now, lifetime);
        assert(ts.contains(p[k]));
    }
}

/// Among the tokens left after pruning, an id is taken exactly when a live
/// token has it.
pub proof fn lemma_pruned_id_taken(ts: Seq<Token>, id: Seq<char>, now: u64, lifetime: u64)
    ensures
        has_token_id(pruned_tokens(ts, now, lifetime), id) == token_valid(ts, id, now, lifetime),
{
    let p = pruned_tokens(ts, now, lifetime);
    lemma_pruned_tokens(ts, now, lifetime, id, Seq::empty());
    if has_token_id(p, id) {
        let k = choose|k: int| 0 <= k < p.len() && #[trigger] token_id_key()(p[k]) == id;
        assert(p[k].id@ == id && token_live(p[k], now, lifetime));
    }
    if token_valid(p, id, now, lifetime) {
        let k = choose|k: int| 0 <= k < p.len() && #[trigger] p[k].id@ == id && token_live(p[k], now, lifetime);
        assert(token_id_key()(p[k]) == id);
    }
}

fn retain_tokens(ts: &Vec<Token>, id: &String, now: u64, lifetime: u64, by_id: bool) -> (r: Vec<
    Token,
>)
    ensures
        !by_id ==> r@ == ts@.filter(live_token(now, lifetime)),
        by_id ==> r@ == ts@.filter(not_token(id@)),
{
    let ghost p = if by_id { not_token(id@) } else { live_token(now, lifetime) };
    let mut out: Vec<Token> = Vec::new();
    let mut i: usize = 0;
    while i < ts.len()
        invariant
            i <= ts@.len(),
            p == if by_id { not_token(id@) } else { live_token(now, lifetime) },
            out@ == ts@.take(i as int).filter(p),
        decreases ts@.len() - i,
    {
        proof {
            assert(ts@.take(i + 1) == ts@.take(i as int).push(ts@[i as int]));
            ts@.take(i as int).lemma_filter_push(ts@[i as int], p);
        }
        let keep = if by_id {
            !(ts[i].id == *id)
        } else {
            is_live(&ts[i], now, lifetime)
        };
        if keep {
            out.push(ts[i].cloned());
        }
        i += 1;
    }
    proof {
        assert(ts@.take(ts@.len() as int) == ts@);
    }
    out
}

/// Removes the tokens that have expired at `now`.
pub(crate) fn prune_tokens(ts: &mut Vec<Token>, now: u64, lifetime: u64)
    requires
        tokens_wf(old(ts)@),
    ensures
        tokens_wf(final(ts)@),
        final(ts)@ == pruned_tokens(old(ts)@, now, lifetime),
{
    let kept = retain_tokens(ts, &String::new(), now, lifetime, false);
    proof {
        lemma_filter_unique(ts@, token_id_key(), live_token(now, lifetime));
        lemma_filter_unique(ts@, token_email_key(), live_token(now, lifetime));
    }
    *ts = kept;
}

/// Prunes at `now`, then removes token `id`.
pub(crate) fn consume_token(ts: &mut Vec<Token>, id: &String, now: u64, lifetime: u64)
    requires
        tokens_wf(old(ts)@),
    ensures
        tokens_wf(final(ts)@),
        final(ts)@ == consumed(old(ts)@, id@, now, lifetime),
{
    prune_tokens(ts, now, lifetime);
    let kept = retain_tokens(ts, id, now, lifetime, true);
    proof {
        lemma_filter_unique(ts@, token_id_key(), not_token(id@));
        lemma_filter_unique(ts@, token_email_key(), not_token(id@));
    }
    *ts = kept;
}

/// Prunes at `now`, then hands out the pending token of `email`, or records a
/// new token `id` for it when there is none. An id already in use is refused.
pub(crate) fn issue_token(ts: &mut Vec<Token>, email: String, id: String, now: u64, lifetime: u64) -> (r:
    Result<Token, ServiceError>)
    requires
        tokens_wf(old(ts)@),
    ensures
        tokens_wf(final(ts)@),
        token_for_email(old(ts)@, email@, now, lifetime) ==> final(ts)@ == pruned_tokens(
            old(ts)@,
            now,
            lifetime,
        ) && (r matches Ok(t) && final(ts)@.contains(t) && t.email@ == email@),
        !token_for_email(old(ts)@, email@, now, lifetime) && has_key(
            pruned_tokens(old(ts)@, now, lifetime),
            token_id_key(),
            id@,
        ) ==> r == Err::<Token, ServiceError>(ServiceError::DuplicateToken) && final(ts)@
            == pruned_tokens(old(ts)@, now, lifetime),
        !token_for_email(old(ts)@, email@, now, lifetime) && !has_key(
            pruned_tokens(old(ts)@, now, lifetime),
            token_id_key(),
            id@,
        ) ==> r == Ok::<Token, ServiceError>(Token { id, email, create_time: now }) && final(ts)@
            == pruned_tokens(old(ts)@, now, lifetime).push(Token { id, email, create_time: now }),
{
    proof {
        lemma_pruned_tokens(old(ts)@, now, lifetime, id@, email@);
    }
    prune_tokens(ts, now, lifetime);
    if let Some(i) = find_token_for_email(ts, &email, now, lifetime) {
        return Ok(ts[i].cloned());
    }
    if find_token_row(ts, &id) {
        return Err(ServiceError::DuplicateToken);
    }
    let t = Token { id, email, create_time: now };
    proof {
        let p = ts@;
        assert(!has_key(p, token_email_key(), t.email@)) by {
            if has_key(p, token_email_key(), t.email@) {
                let i = choose|i: int| 0 <= i < p.len() && #[trigger] token_email_key()(p[i]) == t.email@;
                assert(token_live(p[i], now, lifetime));
            }
        }
        lemma_push_unique(p, token_id_key(), t);
        lemma_push_unique(p, token_email_key(), t);
    }
    ts.push(t.cloned());
    Ok(t)
}

/// The account that a valid token `id` names, as an index into `us`.
pub(crate) fn token_user(ts: &Vec<Token>, us: &Vec<User>, id: &String, now: u64, lifetime: u64) -> (r:
    Option<usize>)
    requires
        tokens_wf(ts@),
    ensures
        r matches Some(j) ==> j < us@.len() && user_live(us@[j as int], now) && exists|i: int|
            0 <= i < ts@.len() && #[trigger] ts@[i].id@ == id@ && token_live(ts@[i], now, lifetime)
                && ts@[i].email@ == us@[j as int].email@,
        r is Some <==> token_user_exists(ts@, us@, id@, now, lifetime),
{
    let i = match find_token(ts, id, now, lifetime) {
        Some(i) => i,
        None => {
            return None;
        },
    };
    match find_user_by_email(us, &ts[i].email, now) {
        Some(j) => {
            assert(ts@[i as int].id@ == id@);
            Some(j)
        },
        None => {
            proof {
                assert forall|a: int, b: int|
                    0 <= a < ts@.len() && 0 <= b < us@.len() && #[trigger] ts@[a].id@ == id@
                        && token_live(ts@[a], now, lifetime) && #[trigger] us@[b].email@
                        == ts@[a].email@ implies !user_live(us@[b], now) by {
                    if a != i as int {
                        assert(token_id_key()(ts@[a]) != token_id_key()(ts@[i as int]));
                    }
                }
            }
            None
        },
    }
}

} // verus!
