//! In-memory stand-ins for the stores and providers.

pub mod repository;
pub mod table;
pub mod token;
