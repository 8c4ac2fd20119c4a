//! Session-backed identity resolution and provisioning.
//!
//! A bearer token is resolved into exactly one caller identity, anonymous or
//! authenticated, through a session store and two identity stores. First-time
//! visitors are provisioned with an anonymous identity and its first session.
//!
//! The workflows are in [`use_case`]. What they ask of the stores and of the
//! providers of identifiers and tokens is in [`repository`], [`token`] and
//! [`data_type`]; [`mock`] holds stores in memory that meet it.

pub mod data_type;
pub mod entity;
pub mod mock;
pub mod repository;
pub mod token;
pub mod use_case;
pub mod value_object;
