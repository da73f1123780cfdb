use vstd::prelude::*;

use crate::identity::Address;

verus! {

/// A tokenized real-world asset claim.
///
/// Created once by tokenization and immutable thereafter: the vault never
/// mutates or deletes a stored token. `asset_value` is strictly positive for
/// every stored token; the vault's well-formedness invariant keeps it so.
#[derive(Debug)]
pub struct CollateralToken {
    /// The controlling party; immutable after creation.
    pub owner: Address,
    /// Short tag for the asset's kind, e.g. `"INVOICE"` or `"COMMODITY"`.
    pub asset_type: String,
    /// The claimed value; strictly positive at creation.
    pub asset_value: i128,
    /// Opaque short reference, e.g. a hash of off-chain detail.
    pub metadata: String,
    /// How many shares the asset is divided into.
    pub fractional_shares: u32,
    /// Host timestamp at creation.
    pub created_at: u64,
}

impl Clone for CollateralToken {
    fn clone(&self) -> (r: Self)
        ensures
            r == *self,
    {
        CollateralToken {
            owner: self.owner,
            asset_type: self.asset_type.clone(),
            asset_value: self.asset_value,
            metadata: self.metadata.clone(),
            fractional_shares: self.fractional_shares,
            created_at: self.created_at,
        }
    }
}

} // verus!
