//! Business rules over the store, one module per table.

pub mod user_service;
pub mod session_service;
pub mod token_table;
pub mod verify_service;
pub mod password_reset_service;
pub mod poll_service;
pub mod poll_option_service;
pub mod poll_vote_service;
