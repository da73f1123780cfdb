use vstd::prelude::*;

use crate::collateral::CollateralToken;
use crate::errors::ContractError;
use crate::escrow::status_rank;
use crate::identity::Address;
use crate::model::activate_step;
use crate::model::create_escrow_step;
use crate::model::escrow_at;
use crate::model::initialize_step;
use crate::model::release_step;
use crate::model::token_at;
use crate::model::tokenize_step;
use crate::model::wf;
use crate::model::VaultModel;

verus! {

/// Initialization is exactly once: after a successful bootstrap the admin is
/// the identity it recorded and both counters stand at 1, and every further
/// bootstrap attempt, whatever identity it carries, fails as unauthorized
/// and leaves the state — the recorded admin included — unchanged.
pub proof fn lemma_initialize_exactly_once(s: VaultModel, first: Address, second: Address)
    requires
        initialize_step(s, first).1 is Ok,
    ensures
        ({
            let s1 = initialize_step(s, first).0;
            &&& s1.admin == Some(first)
            &&& s1.tok_next == 1
            &&& s1.esc_next == 1
            &&& initialize_step(s1, second) == (
                s1,
                Err::<(), ContractError>(ContractError::Unauthorized),
            )
        }),
{
}

/// A valid tokenization is issued exactly the allocator's next id — so in
/// call order the issued ids are 1, 2, 3, … from a fresh bootstrap — the
/// counter advances by one, and looking the id up afterwards yields a record
/// with exactly the submitted fields, stamped with the given time.
pub proof fn lemma_tokenize_issues_next_id(
    s: VaultModel,
    proven: Seq<Address>,
    owner: Address,
    asset_type: String,
    asset_value: i128,
    metadata: String,
    fractional_shares: u32,
    now: u64,
)
    requires
        wf(s),
        s.tok_next < u64::MAX,
        proven.contains(owner),
        asset_value > 0,
    ensures
        ({
            let step = tokenize_step(
                s,
                proven,
                owner,
                asset_type,
                asset_value,
                metadata,
                fractional_shares,
                now,
            );
            &&& step.1 == Ok::<u64, ContractError>(s.tok_next)
            &&& step.0.tok_next == s.tok_next + 1
            &&& token_at(step.0, s.tok_next) == Some(
                CollateralToken {
                    owner,
                    asset_type,
                    asset_value,
                    metadata,
                    fractional_shares,
                    created_at: now,
                },
            )
            &&& step.0.esc_next == s.esc_next
        }),
{
}

/// Two valid tokenizations in a row are issued consecutive ids: the second
/// call's id is one past the first call's.
pub proof fn lemma_tokenize_id_sequence(
    s: VaultModel,
    proven1: Seq<Address>,
    owner1: Address,
    asset_type1: String,
    asset_value1: i128,
    metadata1: String,
    fractional_shares1: u32,
    now1: u64,
    proven2: Seq<Address>,
    owner2: Address,
    asset_type2: String,
    asset_value2: i128,
    metadata2: String,
    fractional_shares2: u32,
    now2: u64,
)
    requires
        wf(s),
        s.tok_next + 1 < u64::MAX,
        proven1.contains(owner1),
        asset_value1 > 0,
        proven2.contains(owner2),
        asset_value2 > 0,
    ensures
        ({
            let first = tokenize_step(
                s,
                proven1,
                owner1,
                asset_type1,
                asset_value1,
                metadata1,
                fractional_shares1,
                now1,
            );
            let second = tokenize_step(
                first.0,
                proven2,
                owner2,
                asset_type2,
                asset_value2,
                metadata2,
                fractional_shares2,
                now2,
            );
            &&& first.1 == Ok::<u64, ContractError>(s.tok_next)
            &&& second.1 == Ok::<u64, ContractError>((s.tok_next + 1) as u64)
        }),
{
}

/// A tokenization with a non-positive value fails as an invalid amount and
/// performs no id allocation: the state is untouched, and the next valid
/// tokenization is issued exactly the id the rejected call would have been.
pub proof fn lemma_rejected_tokenization_allocates_no_id(
    s: VaultModel,
    proven1: Seq<Address>,
    owner1: Address,
    asset_type1: String,
    asset_value1: i128,
    metadata1: String,
    fractional_shares1: u32,
    now1: u64,
    proven2: Seq<Address>,
    owner2: Address,
    asset_type2: String,
    asset_value2: i128,
    metadata2: String,
    fractional_shares2: u32,
    now2: u64,
)
    requires
        proven1.contains(owner1),
        asset_value1 <= 0,
        proven2.contains(owner2),
        asset_value2 > 0,
    ensures
        tokenize_step(
            s,
            proven1,
            owner1,
            asset_type1,
            asset_value1,
            metadata1,
            fractional_shares1,
            now1,
        ) == (s, Err::<u64, ContractError>(ContractError::InvalidAmount)),
        tokenize_step(
            s,
            proven2,
            owner2,
            asset_type2,
            asset_value2,
            metadata2,
            fractional_shares2,
            now2,
        ).1 == Ok::<u64, ContractError>(s.tok_next),
{
}

/// An escrow creation that references no stored collateral token fails as
/// not-found and allocates no escrow id: the state — the escrow counter
/// included — is untouched.
pub proof fn lemma_create_escrow_missing_collateral(
    s: VaultModel,
    proven: Seq<Address>,
    buyer: Address,
    seller: Address,
    collateral_token_id: u64,
    amount: i128,
    oracle_address: Address,
    release_conditions: String,
    now: u64,
)
    requires
        proven.contains(buyer),
        amount > 0,
        token_at(s, collateral_token_id) is None,
    ensures
        create_escrow_step(
            s,
            proven,
            buyer,
            seller,
            collateral_token_id,
            amount,
            oracle_address,
            release_conditions,
            now,
        ) == (s, Err::<u64, ContractError>(ContractError::EscrowNotFound)),
{
}

/// The escrow lifecycle is the one forward path `Pending -> Active ->
/// Released`, in that order and only that order: a freshly created escrow is
/// `Pending`; releasing it before activation fails as already-released;
/// activation succeeds once and a second activation fails as unauthorized;
/// release with the oracle proven succeeds exactly once, and a further
/// release fails as already-released. Every failing call leaves the state
/// unchanged.
pub proof fn lemma_escrow_lifecycle(
    s: VaultModel,
    proven: Seq<Address>,
    buyer: Address,
    seller: Address,
    collateral_token_id: u64,
    amount: i128,
    oracle_address: Address,
    release_conditions: String,
    now: u64,
    oracle_proven: Seq<Address>,
)
    requires
        wf(s),
        proven.contains(buyer),
        amount > 0,
        token_at(s, collateral_token_id) is Some,
        oracle_proven.contains(oracle_address),
    ensures
        ({
            let id = s.esc_next;
            let created = create_escrow_step(
                s,
                proven,
                buyer,
                seller,
                collateral_token_id,
                amount,
                oracle_address,
                release_conditions,
                now,
            );
            let s1 = created.0;
            let activated = activate_step(s1, id);
            let s2 = activated.0;
            let released = release_step(s2, oracle_proven, id);
            let s3 = released.0;
            &&& created.1 == Ok::<u64, ContractError>(id)
            &&& escrow_at(s1, id) matches Some(e) && e.status is Pending
            &&& release_step(s1, oracle_proven, id) == (
                s1,
                Err::<(), ContractError>(ContractError::EscrowAlreadyReleased),
            )
            &&& activated.1 == Ok::<(), ContractError>(())
            &&& escrow_at(s2, id) matches Some(e) && e.status is Active
            &&& activate_step(s2, id) == (
                s2,
                Err::<(), ContractError>(ContractError::Unauthorized),
            )
            &&& released.1 == Ok::<(), ContractError>(())
            &&& escrow_at(s3, id) matches Some(e) && e.status is Released
            &&& release_step(s3, oracle_proven, id) == (
                s3,
                Err::<(), ContractError>(ContractError::EscrowAlreadyReleased),
            )
        }),
{
}

/// Activation never moves any stored escrow's status backward: the one
/// record it may touch goes forward from `Pending` to `Active`, and every
/// other record keeps its status.
pub proof fn lemma_activate_no_status_regression(s: VaultModel, escrow_id: u64)
    ensures
        activate_step(s, escrow_id).0.escrows.len() == s.escrows.len(),
        forall|i: int|
            0 <= i < s.escrows.len() ==> status_rank(activate_step(s, escrow_id).0.escrows[i].status)
                >= status_rank((#[trigger] s.escrows[i]).status),
{
}

/// Release never moves any stored escrow's status backward: the one record
/// it may touch goes forward from `Active` to `Released`, and every other
/// record keeps its status. Together with the frame of the remaining
/// operations — initialization and the two creations never touch a stored
/// escrow's status — no record is ever observed to regress.
pub proof fn lemma_release_no_status_regression(
    s: VaultModel,
    proven: Seq<Address>,
    escrow_id: u64,
)
    ensures
        release_step(s, proven, escrow_id).0.escrows.len() == s.escrows.len(),
        forall|i: int|
            0 <= i < s.escrows.len() ==> status_rank(
                release_step(s, proven, escrow_id).0.escrows[i].status,
            ) >= status_rank((#[trigger] s.escrows[i]).status),
{
}

/// The bootstrap preserves well-formedness: on a repeated call the state is
/// untouched, and a first call finds nothing stored — the bootstrap gates
/// first use of the id allocator — so resetting the counters keeps them one
/// past their collections.
pub proof fn lemma_initialize_preserves_wf(s: VaultModel, admin: Address)
    requires
        wf(s),
    ensures
        wf(initialize_step(s, admin).0),
{
}

/// Tokenization preserves well-formedness — ids stay dense and strictly
/// increasing, and every stored value stays positive — whenever the
/// bootstrap has run and the id counter has room.
pub proof fn lemma_tokenize_preserves_wf(
    s: VaultModel,
    proven: Seq<Address>,
    owner: Address,
    asset_type: String,
    asset_value: i128,
    metadata: String,
    fractional_shares: u32,
    now: u64,
)
    requires
        wf(s),
        s.admin is Some,
        s.tok_next < u64::MAX,
    ensures
        wf(
            tokenize_step(
                s,
                proven,
                owner,
                asset_type,
                asset_value,
                metadata,
                fractional_shares,
                now,
            ).0,
        ),
{
}

/// Escrow creation preserves well-formedness — in particular every stored
/// escrow, the new one included, references a stored collateral token —
/// whenever the bootstrap has run and the id counter has room.
pub proof fn lemma_create_escrow_preserves_wf(
    s: VaultModel,
    proven: Seq<Address>,
    buyer: Address,
    seller: Address,
    collateral_token_id: u64,
    amount: i128,
    oracle_address: Address,
    release_conditions: String,
    now: u64,
)
    requires
        wf(s),
        s.admin is Some,
        s.esc_next < u64::MAX,
    ensures
        wf(
            create_escrow_step(
                s,
                proven,
                buyer,
                seller,
                collateral_token_id,
                amount,
                oracle_address,
                release_conditions,
                now,
            ).0,
        ),
{
}

/// Activation preserves well-formedness: it touches one status and nothing
/// else.
pub proof fn lemma_activate_preserves_wf(s: VaultModel, escrow_id: u64)
    requires
        wf(s),
    ensures
        wf(activate_step(s, escrow_id).0),
{
}

/// Release preserves well-formedness: it touches one status and nothing
/// else.
pub proof fn lemma_release_preserves_wf(s: VaultModel, proven: Seq<Address>, escrow_id: u64)
    requires
        wf(s),
    ensures
        wf(release_step(s, proven, escrow_id).0),
{
}

/// Release is gated on the escrow's own stored oracle identity: an
/// invocation not proven for that identity fails as unauthorized and changes
/// nothing, whatever other validly proven identities it carries.
pub proof fn lemma_release_requires_oracle(s: VaultModel, proven: Seq<Address>, escrow_id: u64)
    requires
        escrow_at(s, escrow_id) matches Some(e) && !proven.contains(e.oracle_address),
    ensures
        release_step(s, proven, escrow_id) == (
            s,
            Err::<(), ContractError>(ContractError::Unauthorized),
        ),
{
}

} // verus!
