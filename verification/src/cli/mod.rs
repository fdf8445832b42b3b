//! Command-line surface: parsed arguments, their mapping into use-case
//! requests, and the text and envelopes rendered from results.

pub mod args;
pub mod execute;
pub mod output;
pub mod render;
