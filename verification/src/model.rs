use vstd::prelude::*;

use crate::collateral::CollateralToken;
use crate::errors::ContractError;
use crate::escrow::EscrowStatus;
use crate::escrow::TradeEscrow;
use crate::events::Event;
use crate::identity::Address;

verus! {

/// The mathematical state of the vault.
///
/// It stands for the host's persistent store as the core sees it: the three
/// named configuration cells (the recorded admin and the two id counters)
/// and the two collections, each keyed by a dense, strictly increasing id
/// starting at 1 — the token with id `i` is `tokens[i - 1]`, and likewise for
/// escrows. `events` is the log of everything handed to the host's bus, in
/// emission order.
#[verifier::ext_equal]
pub struct VaultModel {
    /// The admin identity, recorded exactly once by the bootstrap.
    pub admin: Option<Address>,
    /// The id the next tokenization will be issued.
    pub tok_next: u64,
    /// The id the next escrow creation will be issued.
    pub esc_next: u64,
    /// All stored collateral tokens, in creation order.
    pub tokens: Seq<CollateralToken>,
    /// All stored trade escrows, in creation order.
    pub escrows: Seq<TradeEscrow>,
    /// All events published so far, in order.
    pub events: Seq<Event>,
}

/// The state of a freshly deployed vault: nothing stored, no admin, both
/// counters at their starting value.
pub open spec fn empty_model() -> VaultModel {
    VaultModel {
        admin: None,
        tok_next: 1,
        esc_next: 1,
        tokens: Seq::empty(),
        escrows: Seq::empty(),
        events: Seq::empty(),
    }
}

/// The stored collateral token under `token_id`, if any. Absence is a normal
/// outcome, not an error.
pub open spec fn token_at(s: VaultModel, token_id: u64) -> Option<CollateralToken> {
    if 1 <= token_id && token_id <= s.tokens.len() {
        Some(s.tokens[token_id - 1])
    } else {
        None
    }
}

/// The stored trade escrow under `escrow_id`, if any.
pub open spec fn escrow_at(s: VaultModel, escrow_id: u64) -> Option<TradeEscrow> {
    if 1 <= escrow_id && escrow_id <= s.escrows.len() {
        Some(s.escrows[escrow_id - 1])
    } else {
        None
    }
}

/// Well-formedness of a vault state. Constructors establish it and every
/// operation preserves it:
/// - each id counter is one past its collection, so ids are dense, unique,
///   strictly increasing and start at 1;
/// - every stored token's value and every stored escrow's amount is strictly
///   positive;
/// - every escrow's collateral reference names a stored token;
/// - before the bootstrap has run nothing is stored, since the bootstrap
///   gates first use of the id allocator.
pub open spec fn wf(s: VaultModel) -> bool {
    &&& s.tok_next == s.tokens.len() + 1
    &&& s.esc_next == s.escrows.len() + 1
    &&& forall|i: int| 0 <= i < s.tokens.len() ==> (#[trigger] s.tokens[i]).asset_value > 0
    &&& forall|i: int| 0 <= i < s.escrows.len() ==> (#[trigger] s.escrows[i]).amount > 0
    &&& forall|i: int|
        0 <= i < s.escrows.len() ==> 1 <= (#[trigger] s.escrows[i]).collateral_token_id
            <= s.tokens.len()
    &&& s.admin is None ==> s.tokens.len() == 0 && s.escrows.len() == 0
}

/// One-shot admin bootstrap. Fails as unauthorized if an admin is already
/// recorded, leaving the state unchanged; otherwise records the admin, resets
/// both id counters to their starting value and emits the initialization
/// event.
pub open spec fn initialize_step(s: VaultModel, admin: Address) -> (VaultModel, Result<
    (),
    ContractError,
>) {
    if s.admin is Some {
        (s, Err(ContractError::Unauthorized))
    } else {
        (
            VaultModel {
                admin: Some(admin),
                tok_next: 1,
                esc_next: 1,
                events: s.events.push(Event::Initialized { admin }),
                ..s
            },
            Ok(()),
        )
    }
}

/// Collateral tokenization. `proven` is the set of identities the invocation
/// is authorized for. In order: the owner must be proven, else unauthorized;
/// the value must be strictly positive, else invalid; then the next token id
/// is issued, the record stored under it with the given creation time, the
/// counter advanced, and the tokenization event emitted. A failed call
/// changes nothing — in particular it allocates no id.
pub open spec fn tokenize_step(
    s: VaultModel,
    proven: Seq<Address>,
    owner: Address,
    asset_type: String,
    asset_value: i128,
    metadata: String,
    fractional_shares: u32,
    now: u64,
) -> (VaultModel, Result<u64, ContractError>) {
    if !proven.contains(owner) {
        (s, Err(ContractError::Unauthorized))
    } else if asset_value <= 0 {
        (s, Err(ContractError::InvalidAmount))
    } else {
        let token_id = s.tok_next;
        let token = CollateralToken {
            owner,
            asset_type,
            asset_value,
            metadata,
            fractional_shares,
            created_at: now,
        };
        (
            VaultModel {
                tokens: s.tokens.push(token),
                tok_next: (token_id + 1) as u64,
                events: s.events.push(
                    Event::CollateralTokenized { token_id, owner, asset_value },
                ),
                ..s
            },
            Ok(token_id),
        )
    }
}

/// Escrow creation. In order: the buyer must be proven, else unauthorized;
/// the amount must be strictly positive, else invalid; the referenced
/// collateral token must exist, else not-found (that error kind is reused
/// here for a missing collateral reference); then the next escrow id is
/// issued, the record stored `Pending` with the given creation time, the
/// counter advanced, and the creation event emitted. A failed call changes
/// nothing.
pub open spec fn create_escrow_step(
    s: VaultModel,
    proven: Seq<Address>,
    buyer: Address,
    seller: Address,
    collateral_token_id: u64,
    amount: i128,
    oracle_address: Address,
    release_conditions: String,
    now: u64,
) -> (VaultModel, Result<u64, ContractError>) {
    if !proven.contains(buyer) {
        (s, Err(ContractError::Unauthorized))
    } else if amount <= 0 {
        (s, Err(ContractError::InvalidAmount))
    } else if token_at(s, collateral_token_id) is None {
        (s, Err(ContractError::EscrowNotFound))
    } else {
        let escrow_id = s.esc_next;
        let escrow = TradeEscrow {
            buyer,
            seller,
            collateral_token_id,
            amount,
            status: EscrowStatus::Pending,
            oracle_address,
            release_conditions,
            created_at: now,
        };
        (
            VaultModel {
                escrows: s.escrows.push(escrow),
                esc_next: (escrow_id + 1) as u64,
                events: s.events.push(
                    Event::EscrowCreated { escrow_id, buyer, seller, amount },
                ),
                ..s
            },
            Ok(escrow_id),
        )
    }
}

/// Escrow activation. Deliberately ungated: any caller may confirm a pending
/// escrow is funded. Fails not-found on a missing escrow, and as unauthorized
/// (that error kind is reused here) on any status other than `Pending`;
/// otherwise the status becomes `Active` and the activation event is emitted.
pub open spec fn activate_step(s: VaultModel, escrow_id: u64) -> (VaultModel, Result<
    (),
    ContractError,
>) {
    match escrow_at(s, escrow_id) {
        None => (s, Err(ContractError::EscrowNotFound)),
        Some(e) => {
            if !(e.status is Pending) {
                (s, Err(ContractError::Unauthorized))
            } else {
                (
                    VaultModel {
                        escrows: s.escrows.update(
                            escrow_id - 1,
                            TradeEscrow { status: EscrowStatus::Active, ..e },
                        ),
                        events: s.events.push(Event::EscrowActivated { escrow_id }),
                        ..s
                    },
                    Ok(()),
                )
            }
        },
    }
}

/// Escrow release. Fails not-found on a missing escrow; demands proof for
/// the escrow's own stored oracle identity, else unauthorized — the
/// authorized party is read from the record, not supplied by the caller;
/// fails as already-released (that error kind is reused for every
/// non-`Active` status) unless the escrow is `Active`; otherwise the status
/// becomes `Released` and the release event is emitted.
pub open spec fn release_step(s: VaultModel, proven: Seq<Address>, escrow_id: u64) -> (VaultModel,
    Result<(), ContractError>,
) {
    match escrow_at(s, escrow_id) {
        None => (s, Err(ContractError::EscrowNotFound)),
        Some(e) => {
            if !proven.contains(e.oracle_address) {
                (s, Err(ContractError::Unauthorized))
            } else if !(e.status is Active) {
                (s, Err(ContractError::EscrowAlreadyReleased))
            } else {
                (
                    VaultModel {
                        escrows: s.escrows.update(
                            escrow_id - 1,
                            TradeEscrow { status: EscrowStatus::Released, ..e },
                        ),
                        events: s.events.push(Event::EscrowReleased { escrow_id }),
                        ..s
                    },
                    Ok(()),
                )
            }
        },
    }
}

} // verus!
