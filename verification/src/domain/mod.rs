//! Domain results shared by the use cases and their renderers.

pub mod init;
pub mod source_set;
pub mod artifact;
pub mod artifacts;
pub mod execution;
pub mod convert;
pub mod config_init;
pub mod extensions;
pub mod issue;
pub mod load;
pub mod syntax;
pub mod build_outcome;
pub mod dump;
pub mod launch;
pub mod test;
