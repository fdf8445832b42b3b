//! What the library knows of the 1C platform tools: the results they report.

pub mod result;
pub mod utility;
pub mod download;
