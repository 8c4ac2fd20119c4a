//! Plain data types shared by every layer.

pub mod id;
