use vstd::prelude::*;

verus! {

/// The vault's public error taxonomy.
///
/// The kinds are deliberately coarse and some are reused across distinct
/// failure causes: `Unauthorized` signals a missing authorization proof, a
/// repeated initialization, and a wrong-status record on activation;
/// `EscrowNotFound` signals both a missing escrow and a missing referenced
/// collateral token at escrow creation; `EscrowAlreadyReleased` signals any
/// non-`Active` status on release. `InsufficientBalance` belongs to the
/// declared surface but no current operation returns it.
#[derive(Clone, Copy, Debug, PartialEq, Eq, Structural)]
pub enum ContractError {
    Unauthorized,
    InsufficientBalance,
    InvalidAmount,
    EscrowNotFound,
    EscrowAlreadyReleased,
}

} // verus!
