//! Authentication, authorization and roster-assignment core of a league platform.
//!
//! Storage and network work is done by the caller: the functions here take what
//! was read as plain values and say what to do next.
pub mod header;
pub mod login;
pub mod models;
pub mod openid;
pub mod paging;
pub mod permission;
pub mod provision;
pub mod roster;
pub mod signup;
pub mod steamapi;
pub mod store_model;
pub mod text;
pub mod tokens;
