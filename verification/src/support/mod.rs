//! Shared support types.

pub mod error;
pub mod clone;
