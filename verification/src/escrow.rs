use vstd::prelude::*;

use crate::identity::Address;

verus! {

/// Lifecycle status of a trade escrow.
///
/// Transitions only move forward along `Pending -> Active -> Released`.
/// `Cancelled` is a defined terminal state, but no operation of the current
/// surface reaches it.
#[derive(Clone, Copy, Debug, PartialEq, Eq, Structural)]
pub enum EscrowStatus {
    Pending,
    Active,
    Released,
    Cancelled,
}

/// Position of a status along the forward-only lifecycle. A stored escrow's
/// rank never decreases; see the laws on status monotonicity.
pub open spec fn status_rank(s: EscrowStatus) -> int {
    match s {
        EscrowStatus::Pending => 0,
        EscrowStatus::Active => 1,
        EscrowStatus::Released => 2,
        EscrowStatus::Cancelled => 3,
    }
}

/// A buyer/seller agreement collateralized by a token and gated by an oracle
/// for release.
///
/// Created `Pending`; never deleted. `amount` is strictly positive and
/// `collateral_token_id` named an existing token at creation; both are kept
/// by the vault's well-formedness invariant.
#[derive(Debug)]
pub struct TradeEscrow {
    pub buyer: Address,
    pub seller: Address,
    /// Reference to an existing collateral token, checked at creation only;
    /// tokens are never deleted, so the reference cannot dangle later.
    pub collateral_token_id: u64,
    /// The escrowed amount; strictly positive at creation.
    pub amount: i128,
    pub status: EscrowStatus,
    /// The identity whose authorization proof triggers release. Read from
    /// the record itself, never supplied by the releasing caller.
    pub oracle_address: Address,
    /// Opaque short description of the release trigger, e.g.
    /// `"SHIPMENT_DELIVERED"`.
    pub release_conditions: String,
    /// Host timestamp at creation.
    pub created_at: u64,
}

impl Clone for TradeEscrow {
    fn clone(&self) -> (r: Self)
        ensures
            r == *self,
    {
        TradeEscrow {
            buyer: self.buyer,
            seller: self.seller,
            collateral_token_id: self.collateral_token_id,
            amount: self.amount,
            status: self.status,
            oracle_address: self.oracle_address,
            release_conditions: self.release_conditions.clone(),
            created_at: self.created_at,
        }
    }
}

} // verus!
