//! In-memory stores.

pub mod anonymous_user_repository_mock;
pub mod authenticated_user_repository_mock;
pub mod broken;
pub mod password_credential_repository_mock;
pub mod session_repository_mock;
