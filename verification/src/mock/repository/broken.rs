//! In-memory stores that fail.

pub mod anonymous_user_repository_mock;
pub mod authenticated_user_repository_mock;
pub mod session_repository_mock;
