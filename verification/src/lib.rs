//! Verified core of a trade-finance escrow ledger: tokenized collateral
//! claims and oracle-gated trade escrows.
//!
//! The library implements the business rules of the vault — id allocation,
//! collateral tokenization, escrow creation, and the status state machine
//! `Pending -> Active -> Released` — as a pure state machine over an explicit
//! store. The hosting ledger's facilities (persistent key-value storage, the
//! cryptographic authorization primitive, the clock, and the event bus) are
//! external collaborators: callers hand the core an [`identity::AuthGate`]
//! holding the identities the current invocation was proven to act for, and
//! the current host timestamp; the core hands back its decisions, the updated
//! state, and the events to publish.
//!
//! Every operation's behaviour is stated against a mathematical model
//! ([`model::VaultModel`]) and proved; the laws the vault obeys — one-shot
//! initialization, consecutive id allocation, and forward-only status
//! transitions — stand as proof functions in [`laws`].

pub mod collateral;
pub mod errors;
pub mod escrow;
pub mod events;
pub mod identity;
pub mod laws;
pub mod model;
pub mod vault;
