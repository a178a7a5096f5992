//! Account, session and poll logic of a polling backend.
//!
//! The relational store is modelled by [`store::Store`]: one vector per table,
//! with the integrity rules of each table stated as well-formedness predicates.
//! The service modules carry the business rules (registration, one-time
//! tokens, bounded sessions, poll options and votes) with their contracts;
//! the route modules add what a request needs on top of them (the session
//! cookie, ownership of polls, the JSON bodies). Times are plain seconds and
//! new token ids are handed in by the caller, so every function here is a
//! function of its arguments and the store.

pub mod error;
pub mod validate;
pub mod records;
pub mod seq_facts;
pub mod store;
pub mod crypto;
pub mod services;
pub mod util;
pub mod routes;
pub mod template;
