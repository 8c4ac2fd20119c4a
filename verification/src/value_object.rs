//! Value objects carried by the entities.

pub mod name;
