use greenpoll::error::{ErrorCategory, ServiceError};
use greenpoll::routes::login_register_routes::{login, register, LoginQuery, RegisterQuery};
use greenpoll::routes::poll_option_routes::{
    create_poll_option, delete_poll_option, get_poll_option_info, get_poll_option_poll, set_poll_option_value,
    CreatePollOptionQuery, DeletePollOptionQuery, GetPollOptionPollQuery, GetPollOptionQuery, SetPollOptionValueQuery,
};
use greenpoll::routes::poll_routes::{
    create_poll, delete_poll, get_poll_info, get_poll_options, get_poll_user_votes, get_poll_votes, set_poll_description, set_poll_title,
    CreatePollQuery, DeletePollQuery, GetPollOptionsQuery, GetPollQuery, GetPollVotesQuery, SetDescriptionQuery,
    SetTitleQuery,
};
use greenpoll::routes::poll_vote_routes::{get_poll_vote_poll, poll_unvote, poll_vote, GetPollVotePollQuery, PollUnvoteQuery, PollVoteQuery};
use greenpoll::services::poll_option_service::{create_poll_option as add_option, get_num_poll_options};
use greenpoll::services::poll_service::{create_poll as add_poll, get_poll, poll_exists};
use greenpoll::services::poll_vote_service::{get_poll_vote, poll_vote_exists, unvote_by_poll_option_id, vote};
use greenpoll::store::{Store, MAX_POLL_OPTIONS, UNVERIFIED_USER_LIFETIME};

const NOW: u64 = 1_700_000_000;

fn s(x: &str) -> String {
    x.to_string()
}

/// A store with two logged-in users: "alice" with session "A", "bobby" with session "B".
fn two_users() -> Store {
    let mut db = Store::new(4);
    for (name, email, tok, sid) in [("alice", "alice@x.com", "TA", "A"), ("bobby", "bobby@x.com", "TB", "B")] {
        register(&mut db, RegisterQuery { username: s(name), email: s(email), password: s("password1") }, s(tok), NOW)
            .unwrap();
        login(&mut db, LoginQuery { email: s(email), password: s("password1") }, s(sid), NOW).unwrap();
    }
    db
}

fn new_poll(db: &mut Store, sid: &str, title: &str) -> i32 {
    let sid = s(sid);
    create_poll(db, Some(&sid), CreatePollQuery { title: s(title), description: s("") }, NOW).ok().unwrap().id
}

fn new_option(db: &mut Store, sid: &str, poll_id: i32, value: &str) -> Result<i32, ServiceError> {
    let sid = s(sid);
    create_poll_option(db, Some(&sid), CreatePollOptionQuery { poll_id, value: s(value) }, NOW).map(|o| o.id)
}

#[test]
fn poll_title_over_255_characters_is_refused() {
    let mut db = two_users();
    let a = s("A");
    let r = create_poll(&mut db, Some(&a), CreatePollQuery { title: "T".repeat(256), description: s("") }, NOW);
    assert_eq!(r.err(), Some(ServiceError::TitleLength));
    assert_eq!(ServiceError::TitleLength.category(), ErrorCategory::Validation);
    let ok = create_poll(&mut db, Some(&a), CreatePollQuery { title: "T".repeat(255), description: s("") }, NOW);
    assert!(ok.is_ok());
    let empty = create_poll(&mut db, Some(&a), CreatePollQuery { title: s(""), description: s("") }, NOW);
    assert_eq!(empty.err(), Some(ServiceError::TitleLength));
}

#[test]
fn poll_description_limit() {
    let mut db = two_users();
    let a = s("A");
    let r = create_poll(&mut db, Some(&a), CreatePollQuery { title: s("T"), description: "d".repeat(1024) }, NOW);
    assert_eq!(r.err(), Some(ServiceError::DescriptionLength));
    let ok = create_poll(&mut db, Some(&a), CreatePollQuery { title: s("T"), description: "d".repeat(1023) }, NOW);
    assert!(ok.is_ok());
}

#[test]
fn created_poll_is_owned_by_the_caller() {
    let mut db = two_users();
    let a = s("A");
    let p = create_poll(&mut db, Some(&a), CreatePollQuery { title: s("Lunch"), description: s("Where?") }, NOW)
        .ok()
        .unwrap();
    assert_eq!(p.id, 1);
    assert_eq!(p.user_id, 1);
    assert_eq!(p.title, "Lunch");
    assert_eq!(p.description, "Where?");
    assert_eq!(p.create_time, NOW as i64);
    let info = get_poll_info(&db, GetPollQuery { poll_id: 1 }).ok().unwrap();
    assert_eq!(info.title, "Lunch");
    assert_eq!(get_poll_info(&db, GetPollQuery { poll_id: 9 }).err(), Some(ServiceError::PollNotFound));
    assert_eq!(create_poll(&mut db, None, CreatePollQuery { title: s("x"), description: s("") }, NOW).err(), Some(ServiceError::NotLoggedIn));
}

#[test]
fn seventeenth_option_exceeds_capacity() {
    let mut db = two_users();
    let pid = new_poll(&mut db, "A", "Pick");
    for i in 0..MAX_POLL_OPTIONS {
        assert!(new_option(&mut db, "A", pid, &format!("option {}", i)).is_ok());
    }
    assert_eq!(get_num_poll_options(&db, pid), 16);
    let r = new_option(&mut db, "A", pid, "one more");
    assert_eq!(r, Err(ServiceError::TooManyOptions));
    assert_eq!(ServiceError::TooManyOptions.category(), ErrorCategory::Capacity);
    assert_eq!(get_num_poll_options(&db, pid), 16);
    let other = new_poll(&mut db, "A", "Other");
    assert!(new_option(&mut db, "A", other, "fine").is_ok());
}

#[test]
fn option_value_rules() {
    let mut db = two_users();
    let pid = new_poll(&mut db, "A", "Pick");
    assert_eq!(new_option(&mut db, "A", pid, ""), Err(ServiceError::OptionValueLength));
    assert_eq!(new_option(&mut db, "A", pid, &"v".repeat(256)), Err(ServiceError::OptionValueLength));
    assert!(new_option(&mut db, "A", pid, &"v".repeat(255)).is_ok());
    assert_eq!(add_option(&mut db, 99, s("x")).unwrap_err(), ServiceError::PollNotFound);
    assert_eq!(add_option(&mut db, 99, s("")).unwrap_err(), ServiceError::OptionValueLength);
}

#[test]
fn only_the_owner_edits_a_poll() {
    let mut db = two_users();
    let pid = new_poll(&mut db, "A", "Mine");
    let a = s("A");
    let b = s("B");
    let r = set_poll_title(&mut db, Some(&b), SetTitleQuery { poll_id: pid, title: s("Hijacked") }, NOW);
    assert_eq!(r, Err(ServiceError::NotPermitted));
    assert_eq!(ServiceError::NotPermitted.message(), "You do not have permission to edit this poll");
    assert_eq!(new_option(&mut db, "B", pid, "x"), Err(ServiceError::NotPermitted));
    assert_eq!(delete_poll(&mut db, Some(&b), DeletePollQuery { poll_id: pid }, NOW), Err(ServiceError::NotPermitted));
    assert_eq!(set_poll_title(&mut db, None, SetTitleQuery { poll_id: pid, title: s("x") }, NOW), Err(ServiceError::NotLoggedIn));
    let bad = s("bad");
    assert_eq!(set_poll_title(&mut db, Some(&bad), SetTitleQuery { poll_id: pid, title: s("x") }, NOW), Err(ServiceError::InvalidSession));
    assert_eq!(set_poll_title(&mut db, Some(&a), SetTitleQuery { poll_id: 77, title: s("x") }, NOW), Err(ServiceError::PollNotFound));
    set_poll_title(&mut db, Some(&a), SetTitleQuery { poll_id: pid, title: s("Renamed") }, NOW).unwrap();
    set_poll_description(&mut db, Some(&a), SetDescriptionQuery { poll_id: pid, description: s("About") }, NOW).unwrap();
    let p = get_poll(&db, pid).unwrap();
    assert_eq!(p.title, "Renamed");
    assert_eq!(p.description, "About");
    assert_eq!(set_poll_title(&mut db, Some(&a), SetTitleQuery { poll_id: pid, title: "T".repeat(256) }, NOW), Err(ServiceError::TitleLength));
}

#[test]
fn only_the_owner_edits_an_option() {
    let mut db = two_users();
    let pid = new_poll(&mut db, "A", "Mine");
    let oid = new_option(&mut db, "A", pid, "first").unwrap();
    let a = s("A");
    let b = s("B");
    let r = set_poll_option_value(&mut db, Some(&b), SetPollOptionValueQuery { poll_option_id: oid, new_value: s("x") }, NOW);
    assert_eq!(r, Err(ServiceError::NotPermitted));
    let r = set_poll_option_value(&mut db, Some(&a), SetPollOptionValueQuery { poll_option_id: 500, new_value: s("x") }, NOW);
    assert_eq!(r, Err(ServiceError::PollOptionNotFound));
    set_poll_option_value(&mut db, Some(&a), SetPollOptionValueQuery { poll_option_id: oid, new_value: s("changed") }, NOW).unwrap();
    assert_eq!(get_poll_option_info(&db, GetPollOptionQuery { poll_option_id: oid }).ok().unwrap().value, "changed");
    assert_eq!(get_poll_option_poll(&db, GetPollOptionPollQuery { poll_option_id: oid }).ok().unwrap().id, pid);
    assert_eq!(delete_poll_option(&mut db, Some(&b), DeletePollOptionQuery { poll_option_id: oid }, NOW), Err(ServiceError::NotPermitted));
    delete_poll_option(&mut db, Some(&a), DeletePollOptionQuery { poll_option_id: oid }, NOW).unwrap();
    assert_eq!(get_poll_option_info(&db, GetPollOptionQuery { poll_option_id: oid }).err(), Some(ServiceError::PollOptionNotFound));
}

#[test]
fn voting_again_replaces_the_ballot() {
    let mut db = two_users();
    let pid = new_poll(&mut db, "A", "Pick");
    let o1 = new_option(&mut db, "A", pid, "one").unwrap();
    let o2 = new_option(&mut db, "A", pid, "two").unwrap();
    let b = s("B");
    let v1 = poll_vote(&mut db, Some(&b), PollVoteQuery { poll_option_id: o1 }, NOW).ok().unwrap();
    assert_eq!(v1.poll_option_id, o1);
    let v2 = poll_vote(&mut db, Some(&b), PollVoteQuery { poll_option_id: o2 }, NOW + 1).ok().unwrap();
    assert_eq!(v2.poll_id, pid);
    let votes = get_poll_votes(&db, GetPollVotesQuery { poll_id: pid });
    assert_eq!(votes.len(), 1);
    assert_eq!(votes[0].user_id, 2);
    assert_eq!(votes[0].poll_option_id, o2);
    assert_eq!(votes[0].vote_time, (NOW + 1) as i64);
    assert_eq!(get_poll_vote(&db, 2, pid).unwrap().poll_option_id, o2);
}

#[test]
fn votes_of_different_users_are_kept() {
    let mut db = two_users();
    let pid = new_poll(&mut db, "A", "Pick");
    let o1 = new_option(&mut db, "A", pid, "one").unwrap();
    let a = s("A");
    let b = s("B");
    poll_vote(&mut db, Some(&a), PollVoteQuery { poll_option_id: o1 }, NOW).ok().unwrap();
    poll_vote(&mut db, Some(&b), PollVoteQuery { poll_option_id: o1 }, NOW).ok().unwrap();
    assert_eq!(get_poll_votes(&db, GetPollVotesQuery { poll_id: pid }).len(), 2);
    poll_unvote(&mut db, Some(&a), PollUnvoteQuery { poll_id: pid }, NOW).unwrap();
    assert!(!poll_vote_exists(&db, 1, pid));
    assert!(poll_vote_exists(&db, 2, pid));
    assert_eq!(get_poll_vote(&db, 1, pid).unwrap_err(), ServiceError::PollVoteNotFound);
    unvote_by_poll_option_id(&mut db, 2, o1);
    assert!(!poll_vote_exists(&db, 2, pid));
}

#[test]
fn voting_needs_an_existing_option() {
    let mut db = two_users();
    let b = s("B");
    let r = poll_vote(&mut db, Some(&b), PollVoteQuery { poll_option_id: 3 }, NOW);
    assert_eq!(r.err(), Some(ServiceError::PollOptionNotFound));
    assert_eq!(poll_vote(&mut db, None, PollVoteQuery { poll_option_id: 3 }, NOW).err(), Some(ServiceError::NotLoggedIn));
    assert_eq!(vote(&mut db, 2, 3, NOW).unwrap_err(), ServiceError::PollOptionNotFound);
}

#[test]
fn vote_leads_back_to_its_poll() {
    let mut db = two_users();
    let pid = new_poll(&mut db, "A", "Pick");
    let o1 = new_option(&mut db, "A", pid, "one").unwrap();
    let v = vote(&mut db, 1, o1, NOW).unwrap();
    let p = get_poll_vote_poll(&db, GetPollVotePollQuery { poll_vote_id: v.id }).ok().unwrap();
    assert_eq!(p.id, pid);
    assert_eq!(get_poll_vote_poll(&db, GetPollVotePollQuery { poll_vote_id: 99 }).err(), Some(ServiceError::PollVoteNotFound));
}

#[test]
fn deleting_a_poll_removes_its_options_and_votes() {
    let mut db = two_users();
    let pid = new_poll(&mut db, "A", "Pick");
    let keep = new_poll(&mut db, "A", "Keep");
    let o1 = new_option(&mut db, "A", pid, "one").unwrap();
    let k1 = new_option(&mut db, "A", keep, "kept").unwrap();
    vote(&mut db, 2, o1, NOW).unwrap();
    vote(&mut db, 2, k1, NOW).unwrap();
    let a = s("A");
    delete_poll(&mut db, Some(&a), DeletePollQuery { poll_id: pid }, NOW).unwrap();
    assert!(!poll_exists(&db, pid));
    assert!(poll_exists(&db, keep));
    assert_eq!(get_poll_options(&db, GetPollOptionsQuery { poll_id: pid }).len(), 0);
    assert_eq!(get_poll_votes(&db, GetPollVotesQuery { poll_id: pid }).len(), 0);
    assert_eq!(get_poll_votes(&db, GetPollVotesQuery { poll_id: keep }).len(), 1);
}

#[test]
fn options_are_listed_in_order() {
    let mut db = two_users();
    let pid = new_poll(&mut db, "A", "Pick");
    new_option(&mut db, "A", pid, "one").unwrap();
    new_option(&mut db, "A", pid, "two").unwrap();
    let values: Vec<String> = get_poll_options(&db, GetPollOptionsQuery { poll_id: pid }).into_iter().map(|o| o.value).collect();
    assert_eq!(values, vec![s("one"), s("two")]);
}

#[test]
fn service_level_poll_creation() {
    let mut db = Store::new(4);
    let p = add_poll(&mut db, 5, s("T"), s("D"), NOW).unwrap();
    assert_eq!(p.user_id, 5);
    assert_eq!(p.id, 1);
    let q = add_poll(&mut db, 5, s("U"), s(""), NOW).unwrap();
    assert_eq!(q.id, 2);
}

#[test]
fn user_votes_carry_names_and_option_texts() {
    let mut db = two_users();
    let pid = new_poll(&mut db, "A", "Pick");
    let o1 = new_option(&mut db, "A", pid, "one").unwrap();
    let o2 = new_option(&mut db, "A", pid, "two").unwrap();
    vote(&mut db, 1, o1, NOW).unwrap();
    vote(&mut db, 2, o2, NOW + 3).unwrap();
    let rows = get_poll_user_votes(&db, GetPollVotesQuery { poll_id: pid }, NOW);
    assert_eq!(rows.len(), 2);
    assert_eq!(rows[0].username, "alice");
    assert_eq!(rows[0].poll_option_value, "one");
    assert_eq!(rows[1].username, "bobby");
    assert_eq!(rows[1].poll_option_id, o2);
    assert_eq!(rows[1].poll_option_value, "two");
    assert_eq!(rows[1].vote_time, (NOW + 3) as i64);
    let later = get_poll_user_votes(&db, GetPollVotesQuery { poll_id: pid }, NOW + UNVERIFIED_USER_LIFETIME);
    assert_eq!(later.len(), 0);
}
