//! What the workflows ask of the stores.

pub mod password_credential_repository;
pub mod session_repository;
pub mod user_repository;
