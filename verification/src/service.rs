//! Services built on the repositories.

pub mod drop;
