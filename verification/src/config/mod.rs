//! Application configuration: the model and its consistency checks.

pub mod model;
pub mod validate;
