//! The request handlers' logic: each takes the parsed query, the session
//! cookie and the time, and returns the record to render or the error.

pub mod json;
pub mod verify_routes;
pub mod login_register_routes;
pub mod password_reset_routes;
pub mod user_routes;
pub mod poll_routes;
pub mod poll_option_routes;
pub mod poll_vote_routes;
