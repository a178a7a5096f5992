//! Rows of the store's tables. Times are seconds since the Unix epoch.
use vstd::prelude::*;

verus! {

/// A registered account. `password` holds the password's bcrypt hash.
#[derive(Debug)]
pub struct User {
    pub id: i32,
    pub username: String,
    pub email: String,
    pub password: String,
    pub verified: bool,
    pub join_time: u64,
}

/// A login session; `id` is the opaque token handed to the client.
#[derive(Debug)]
pub struct Session {
    pub id: String,
    pub user_id: i32,
    pub create_time: u64,
}

/// A pending one-time token, as kept by the verification and the password
/// reset tables.
#[derive(Debug)]
pub struct Token {
    pub id: String,
    pub email: String,
    pub create_time: u64,
}

/// A pending email verification.
#[derive(Debug)]
pub struct Verify {
    pub id: String,
    pub email: String,
    pub create_time: u64,
}

/// A pending password reset.
#[derive(Debug)]
pub struct PasswordReset {
    pub id: String,
    pub email: String,
    pub create_time: u64,
}

#[derive(Debug)]
pub struct Poll {
    pub id: i32,
    pub user_id: i32,
    pub title: String,
    pub description: String,
    pub create_time: u64,
}

#[derive(Debug)]
pub struct PollOption {
    pub id: i32,
    pub poll_id: i32,
    pub value: String,
}

#[derive(Debug)]
pub struct PollVote {
    pub id: i32,
    pub user_id: i32,
    pub poll_id: i32,
    pub poll_option_id: i32,
    pub vote_time: u64,
}

impl User {
    pub fn cloned(&self) -> (r: User)
        ensures
            r == *self,
    {
        User {
            id: self.id,
            username: self.username.clone(),
            email: self.email.clone(),
            password: self.password.clone(),
            verified: self.verified,
            join_time: self.join_time,
        }
    }
}

impl Session {
    pub fn cloned(&self) -> (r: Session)
        ensures
            r == *self,
    {
        Session { id: self.id.clone(), user_id: self.user_id, create_time: self.create_time }
    }
}

impl Token {
    pub fn cloned(&self) -> (r: Token)
        ensures
            r == *self,
    {
        Token { id: self.id.clone(), email: self.email.clone(), create_time: self.create_time }
    }
}

impl Verify {
    pub open spec fn from_token_spec(t: Token) -> Verify {
        Verify { id: t.id, email: t.email, create_time: t.create_time }
    }

    pub fn from_token(t: Token) -> (r: Verify)
        ensures
            r == Verify::from_token_spec(t),
    {
        Verify { id: t.id, email: t.email, create_time: t.create_time }
    }
}

impl PasswordReset {
    pub open spec fn from_token_spec(t: Token) -> PasswordReset {
        PasswordReset { id: t.id, email: t.email, create_time: t.create_time }
    }

    pub fn from_token(t: Token) -> (r: PasswordReset)
        ensures
            r == PasswordReset::from_token_spec(t),
    {
        PasswordReset { id: t.id, email: t.email, create_time: t.create_time }
    }
}

impl Poll {
    pub fn cloned(&self) -> (r: Poll)
        ensures
            r == *self,
    {
        Poll {
            id: self.id,
            user_id: self.user_id,
            title: self.title.clone(),
            description: self.description.clone(),
            create_time: self.create_time,
        }
    }
}

impl PollOption {
    pub fn cloned(&self) -> (r: PollOption)
        ensures
            r == *self,
    {
        PollOption { id: self.id, poll_id: self.poll_id, value: self.value.clone() }
    }
}

impl PollVote {
    pub fn cloned(&self) -> (r: PollVote)
        ensures
            r == *self,
    {
        PollVote {
            id: self.id,
            user_id: self.user_id,
            poll_id: self.poll_id,
            poll_option_id: self.poll_option_id,
            vote_time: self.vote_time,
        }
    }
}

} // verus!
