use vstd::prelude::*;

use crate::errors::ContractError;

verus! {

/// An on-ledger identity: a party that can own collateral, take part in an
/// escrow, or attest a release. The host's account layer is outside this
/// core; an identity is carried as its plain numeric handle.
#[derive(Clone, Copy, Debug, PartialEq, Eq, Structural)]
pub struct Address {
    pub id: u64,
}

impl Address {
    pub fn new(id: u64) -> (a: Address)
        ensures
            a.id == id,
    {
        Address { id }
    }
}

/// The authorization gate: the set of identities the current invocation has
/// been cryptographically proven to act for.
///
/// The proof mechanism itself belongs to the host; this core only consumes
/// its outcome. In production the host's verifier fills this value; a test
/// fills it deterministically. An operation that demands authorization takes
/// this value and asks it for the required identity — for escrow release the
/// identity asked for is read from the stored record itself, so a caller
/// cannot substitute a different, validly proven identity.
pub struct AuthGate {
    proven: Vec<Address>,
}

impl View for AuthGate {
    type V = Seq<Address>;

    closed spec fn view(&self) -> Seq<Address> {
        self.proven@
    }
}

impl AuthGate {
    /// A gate with no proven identities: every authorization demand fails.
    pub fn new() -> (g: AuthGate)
        ensures
            g@ == Seq::<Address>::empty(),
    {
        AuthGate { proven: Vec::new() }
    }

    /// Records one more identity as proven for the current invocation.
    pub fn grant(&mut self, identity: Address)
        ensures
            final(self)@ == old(self)@.push(identity),
    {
        self.proven.push(identity);
    }

    /// Whether the current invocation was proven to act for `identity`.
    pub fn is_authorized(&self, identity: &Address) -> (r: bool)
        ensures
            r == self@.contains(*identity),
    {
        let mut i: usize = 0;
        while i < self.proven.len()
            invariant
                0 <= i <= self.proven.len(),
                forall|j: int| 0 <= j < i ==> self.proven@[j] != *identity,
            decreases self.proven.len() - i,
        {
            if self.proven[i] == *identity {
                return true;
            }
            i = i + 1;
        }
        false
    }

    /// The one authorization demand: `Ok` exactly when `identity` is proven, and
    /// the unauthorized failure otherwise.
    pub fn require_authorized(&self, identity: &Address) -> (r: Result<(), ContractError>)
        ensures
            r is Ok <==> self@.contains(*identity),
            r is Err ==> r == Err::<(), ContractError>(ContractError::Unauthorized),
    {
        if self.is_authorized(identity) {
            Ok(())
        } else {
            Err(ContractError::Unauthorized)
        }
    }
}

} // verus!
