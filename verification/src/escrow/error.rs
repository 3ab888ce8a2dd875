use vstd::prelude::*;

verus! {

/// The escrow program's own error cases.
#[derive(Clone, Copy, Debug, PartialEq, Eq, Structural)]
pub enum EscrowError {
    /// Target amount is not satisfied.
    TargetNotMet,
    /// Invalid vault owner.
    InvalidVaultOwner,
    /// Invalid token program.
    InvalidTokenProgram,
}

} // verus!
