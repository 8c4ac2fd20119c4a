//! The records that the stores keep.

pub mod credential;
pub mod session;
pub mod user;
