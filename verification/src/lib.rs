//! Credential and token core of a stateless authentication service.
//!
//! The library hashes and verifies passwords, issues and validates signed
//! bearer tokens, parses configured expiry durations, and implements the
//! register / login / refresh / logout rules on top of an external user
//! store whose lookup and insert results are handed in as plain values.

pub mod auth;
pub mod credential;
pub mod dtos;
pub mod duration;
pub mod errors;
pub mod guard;
pub mod models;
pub mod token;
pub mod users;
