//! Results of writing a starter configuration.

use vstd::prelude::*;

verus! {

#[derive(Debug, Clone, PartialEq, Eq)]
pub struct ConfigInitResult {
    pub ok: bool,
    pub path: String,
    pub format: String,
    pub builder: String,
    pub source_sets: Vec<ConfigInitSourceSet>,
    pub overwritten: bool,
    pub duration_ms: u64,
}

#[derive(Debug, Clone, PartialEq, Eq)]
pub struct ConfigInitSourceSet {
    pub name: String,
    pub source_type: String,
    pub path: String,
}

} // verus!
