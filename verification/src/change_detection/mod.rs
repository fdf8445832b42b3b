//! Change detection: recorded file states, hash storage and partial-load planning.

pub mod analyzer;
pub mod partial_load;
pub mod hash_storage;
pub mod file_state;
pub mod source_sets;
