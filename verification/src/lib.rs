//! Credential and session lifecycle for a small social application:
//! bounded text values, password hashing, session signing and the
//! register / login flows built from them.

pub mod error;
pub mod flow;
pub mod ids;
pub mod password;
pub mod post;
pub mod session;
pub mod sign;
pub mod text;
pub mod time;
pub mod user;
