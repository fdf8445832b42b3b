//! The platform utilities the tool runs.

use vstd::prelude::*;

verus! {

/// A platform utility.
#[derive(Debug, Clone, Copy, PartialEq, Eq, Structural)]
pub enum UtilityType {
    /// The 1C:Enterprise thick client and Designer (`1cv8`).
    V8,
    /// The 1C:Enterprise thin client (`1cv8c`).
    V8C,
    /// The standalone infobase utility (`ibcmd`).
    Ibcmd,
    /// The EDT command-line interface.
    EdtCli,
}

} // verus!
