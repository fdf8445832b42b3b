//! Test outcomes.

use vstd::prelude::*;

verus! {

/// How one test case ended.
#[derive(Debug, Clone, Copy, PartialEq, Eq, Structural)]
pub enum TestStatus {
    Passed,
    Failed,
    Skipped,
    Error,
}

} // verus!
