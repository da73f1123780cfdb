use vstd::prelude::*;

use crate::identity::Address;

verus! {

/// An event the vault asks the host's bus to publish after a successful
/// mutation, for off-chain indexing.
///
/// Emission is fire-and-forget: the core appends the event to its log as part
/// of the same atomic operation that commits the writes, and never reads
/// events back. A failed operation emits nothing.
#[derive(Clone, Copy, Debug, PartialEq, Eq, Structural)]
pub enum Event {
    /// The admin bootstrap ran; carries the recorded admin.
    Initialized { admin: Address },
    /// A collateral token was created.
    CollateralTokenized { token_id: u64, owner: Address, asset_value: i128 },
    /// A trade escrow was created, status `Pending`.
    EscrowCreated { escrow_id: u64, buyer: Address, seller: Address, amount: i128 },
    /// An escrow moved from `Pending` to `Active`.
    EscrowActivated { escrow_id: u64 },
    /// An escrow moved from `Active` to `Released`.
    EscrowReleased { escrow_id: u64 },
}

impl Event {
    /// The short topic tag the host's event bus carries for this event.
    pub open spec fn spec_topic(&self) -> Seq<char> {
        match self {
            Event::Initialized { .. } => "init"@,
            Event::CollateralTokenized { .. } => "tokenize"@,
            Event::EscrowCreated { .. } => "esc_crtd"@,
            Event::EscrowActivated { .. } => "esc_act"@,
            Event::EscrowReleased { .. } => "esc_rel"@,
        }
    }

    /// The topic tag as a value fit for the host's bus.
    pub fn topic(&self) -> (r: String)
        ensures
            r@ == self.spec_topic(),
    {
        match self {
            Event::Initialized { .. } => "init".to_owned(),
            Event::CollateralTokenized { .. } => "tokenize".to_owned(),
            Event::EscrowCreated { .. } => "esc_crtd".to_owned(),
            Event::EscrowActivated { .. } => "esc_act".to_owned(),
            Event::EscrowReleased { .. } => "esc_rel".to_owned(),
        }
    }
}

} // verus!
