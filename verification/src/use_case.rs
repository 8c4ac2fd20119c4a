//! The workflows.

pub mod anonymous_registers;
pub mod user_authenticates_with_token;
