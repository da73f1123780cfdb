use vstd::prelude::*;

use crate::collateral::CollateralToken;
use crate::errors::ContractError;
use crate::escrow::EscrowStatus;
use crate::escrow::TradeEscrow;
use crate::events::Event;
use crate::identity::Address;
use crate::identity::AuthGate;
use crate::model::activate_step;
use crate::model::create_escrow_step;
use crate::model::empty_model;
use crate::model::escrow_at;
use crate::model::initialize_step;
use crate::model::release_step;
use crate::model::token_at;
use crate::model::tokenize_step;
use crate::model::wf;
use crate::model::VaultModel;

verus! {

/// The vault: collateral registry, escrow registry and their shared
/// configuration, held as one explicit store.
///
/// A value of this type stands for the whole persistent state of one
/// deployed instance. Every operation is one atomic invocation: it either
/// commits all its writes and appends its event, or fails with a typed error
/// and changes nothing. Each operation's contract says the state and result
/// are exactly those of the matching transition function of [`crate::model`],
/// and that well-formedness ([`wf`]) is preserved.
pub struct StelloVaultContract {
    admin: Option<Address>,
    tok_next: u64,
    esc_next: u64,
    tokens: Vec<CollateralToken>,
    escrows: Vec<TradeEscrow>,
    events: Vec<Event>,
}

impl View for StelloVaultContract {
    type V = VaultModel;

    closed spec fn view(&self) -> VaultModel {
        VaultModel {
            admin: self.admin,
            tok_next: self.tok_next,
            esc_next: self.esc_next,
            tokens: self.tokens@,
            escrows: self.escrows@,
            events: self.events@,
        }
    }
}

impl StelloVaultContract {
    /// A freshly deployed vault: nothing stored, no admin recorded.
    pub fn new() -> (v: StelloVaultContract)
        ensures
            v@ == empty_model(),
            wf(v@),
    {
        let v = StelloVaultContract {
            admin: None,
            tok_next: 1,
            esc_next: 1,
            tokens: Vec::new(),
            escrows: Vec::new(),
            events: Vec::new(),
        };
        proof {
            assert(v@ =~= empty_model());
        }
        v
    }

    /// Records the admin, exactly once for the lifetime of the instance.
    ///
    /// Fails as unauthorized if an admin is already recorded — a guard
    /// against repetition, not an update path — leaving everything, the
    /// recorded admin included, unchanged. Otherwise records `admin`, resets
    /// both id counters to 1 and emits the initialization event.
    pub fn initialize(&mut self, admin: Address) -> (r: Result<(), ContractError>)
        requires
            wf(old(self)@),
        ensures
            wf(final(self)@),
            (final(self)@, r) == initialize_step(old(self)@, admin),
    {
        if self.admin.is_some() {
            return Err(ContractError::Unauthorized);
        }
        self.admin = Some(admin);
        self.tok_next = 1;
        self.esc_next = 1;
        self.events.push(Event::Initialized { admin });
        Ok(())
    }

    /// The recorded admin. The bootstrap must have run; on an uninitialized
    /// instance the underlying missing-key failure would propagate, so that
    /// state is excluded here.
    pub fn admin(&self) -> (r: Address)
        requires
            self@.admin is Some,
        ensures
            Some(r) == self@.admin,
    {
        self.admin.unwrap()
    }

    /// Whether the admin bootstrap has run.
    pub fn is_initialized(&self) -> (r: bool)
        ensures
            r == (self@.admin is Some),
    {
        self.admin.is_some()
    }

    /// Creates a collateral token: validates that the caller is proven as
    /// `owner` and that `asset_value` is strictly positive, then stores the
    /// record under the next collateral id, stamped `now`, advances the
    /// counter, emits the tokenization event and returns the new id. A
    /// failed call allocates no id. The bootstrap must have run: it gates
    /// first use of the id allocator.
    pub fn tokenize_collateral(
        &mut self,
        gate: &AuthGate,
        owner: Address,
        asset_type: String,
        asset_value: i128,
        metadata: String,
        fractional_shares: u32,
        now: u64,
    ) -> (r: Result<u64, ContractError>)
        requires
            wf(old(self)@),
            old(self)@.admin is Some,
            old(self)@.tokens.len() + 2 <= u64::MAX,
        ensures
            wf(final(self)@),
            (final(self)@, r) == tokenize_step(
                old(self)@,
                gate@,
                owner,
                asset_type,
                asset_value,
                metadata,
                fractional_shares,
                now,
            ),
    {
        if !gate.is_authorized(&owner) {
            return Err(ContractError::Unauthorized);
        }
        if asset_value <= 0 {
            return Err(ContractError::InvalidAmount);
        }
        let token_id: u64 = self.tok_next;
        let token = CollateralToken {
            owner,
            asset_type,
            asset_value,
            metadata,
            fractional_shares,
            created_at: now,
        };
        self.tokens.push(token);
        self.tok_next = token_id + 1;
        self.events.push(Event::CollateralTokenized { token_id, owner, asset_value });
        Ok(token_id)
    }

    /// The stored collateral token under `token_id`, or `None`. A pure
    /// lookup: absence is a normal outcome, never an error.
    pub fn get_collateral(&self, token_id: u64) -> (r: Option<CollateralToken>)
        ensures
            r == token_at(self@, token_id),
    {
        if 1 <= token_id && token_id <= self.tokens.len() as u64 {
            Some(self.tokens[(token_id - 1) as usize].clone())
        } else {
            None
        }
    }

    /// Creates a trade escrow: validates that the caller is proven as
    /// `buyer`, that `amount` is strictly positive and that
    /// `collateral_token_id` names a stored token, then stores the record
    /// `Pending` under the next escrow id, stamped `now`, advances the
    /// counter, emits the creation event and returns the new id. A failed
    /// call allocates no id. The bootstrap must have run: it gates first use
    /// of the id allocator.
    pub fn create_escrow(
        &mut self,
        gate: &AuthGate,
        buyer: Address,
        seller: Address,
        collateral_token_id: u64,
        amount: i128,
        oracle_address: Address,
        release_conditions: String,
        now: u64,
    ) -> (r: Result<u64, ContractError>)
        requires
            wf(old(self)@),
            old(self)@.admin is Some,
            old(self)@.escrows.len() + 2 <= u64::MAX,
        ensures
            wf(final(self)@),
            (final(self)@, r) == create_escrow_step(
                old(self)@,
                gate@,
                buyer,
                seller,
                collateral_token_id,
                amount,
                oracle_address,
                release_conditions,
                now,
            ),
    {
        if !gate.is_authorized(&buyer) {
            return Err(ContractError::Unauthorized);
        }
        if amount <= 0 {
            return Err(ContractError::InvalidAmount);
        }
        if !(1 <= collateral_token_id && collateral_token_id <= self.tokens.len() as u64) {
            return Err(ContractError::EscrowNotFound);
        }
        let escrow_id: u64 = self.esc_next;
        let escrow = TradeEscrow {
            buyer,
            seller,
            collateral_token_id,
            amount,
            status: EscrowStatus::Pending,
            oracle_address,
            release_conditions,
            created_at: now,
        };
        self.escrows.push(escrow);
        self.esc_next = escrow_id + 1;
        self.events.push(Event::EscrowCreated { escrow_id, buyer, seller, amount });
        Ok(escrow_id)
    }

    /// The stored trade escrow under `escrow_id`, or `None`. A pure lookup.
    pub fn get_escrow(&self, escrow_id: u64) -> (r: Option<TradeEscrow>)
        ensures
            r == escrow_at(self@, escrow_id),
    {
        if 1 <= escrow_id && escrow_id <= self.escrows.len() as u64 {
            Some(self.escrows[(escrow_id - 1) as usize].clone())
        } else {
            None
        }
    }

    /// Moves a `Pending` escrow to `Active` and emits the activation event.
    ///
    /// Deliberately ungated: any caller may confirm a pending escrow is
    /// funded, so no authorization gate is consulted. Fails not-found on a
    /// missing escrow and as unauthorized (the reused kind) on any status
    /// other than `Pending`, changing nothing either way.
    pub fn activate_escrow(&mut self, escrow_id: u64) -> (r: Result<(), ContractError>)
        requires
            wf(old(self)@),
        ensures
            wf(final(self)@),
            (final(self)@, r) == activate_step(old(self)@, escrow_id),
    {
        if !(1 <= escrow_id && escrow_id <= self.escrows.len() as u64) {
            return Err(ContractError::EscrowNotFound);
        }
        let idx: usize = (escrow_id - 1) as usize;
        if !(self.escrows[idx].status == EscrowStatus::Pending) {
            return Err(ContractError::Unauthorized);
        }
        let mut escrow = self.escrows[idx].clone();
        escrow.status = EscrowStatus::Active;
        self.escrows.set(idx, escrow);
        self.events.push(Event::EscrowActivated { escrow_id });
        Ok(())
    }

    /// Moves an `Active` escrow to `Released` and emits the release event.
    ///
    /// Fails not-found on a missing escrow; demands that the invocation is
    /// proven for the escrow's own stored oracle identity — read from the
    /// record, never supplied by the caller — else unauthorized; and fails
    /// as already-released (the reused kind) on any status other than
    /// `Active`. A failed call changes nothing.
    pub fn release_escrow(&mut self, gate: &AuthGate, escrow_id: u64) -> (r: Result<
        (),
        ContractError,
    >)
        requires
            wf(old(self)@),
        ensures
            wf(final(self)@),
            (final(self)@, r) == release_step(old(self)@, gate@, escrow_id),
    {
        if !(1 <= escrow_id && escrow_id <= self.escrows.len() as u64) {
            return Err(ContractError::EscrowNotFound);
        }
        let idx: usize = (escrow_id - 1) as usize;
        if !gate.is_authorized(&self.escrows[idx].oracle_address) {
            return Err(ContractError::Unauthorized);
        }
        if !(self.escrows[idx].status == EscrowStatus::Active) {
            return Err(ContractError::EscrowAlreadyReleased);
        }
        let mut escrow = self.escrows[idx].clone();
        escrow.status = EscrowStatus::Released;
        self.escrows.set(idx, escrow);
        self.events.push(Event::EscrowReleased { escrow_id });
        Ok(())
    }

    /// The id the next tokenization will be issued.
    pub fn next_collateral_id(&self) -> (r: u64)
        ensures
            r == self@.tok_next,
    {
        self.tok_next
    }

    /// The id the next escrow creation will be issued.
    pub fn next_escrow_id(&self) -> (r: u64)
        ensures
            r == self@.esc_next,
    {
        self.esc_next
    }

    /// The log of events published so far, in emission order.
    pub fn events(&self) -> (r: &Vec<Event>)
        ensures
            r@ == self@.events,
    {
        &self.events
    }
}

} // verus!
