//! A registry of content-hash commitments ("proofs") that an issuer can
//! create, let expire or revoke, and whose status anyone can query.
//!
//! The registry is a state machine over plain values. What the host ledger
//! knows (who calls, the time, the attached deposit, the storage counter and
//! its price, the account balance) is handed to each operation; the native
//! transfers that an operation asks for are handed back as [`Transfer`]
//! values.

use vstd::prelude::*;

pub mod ledger;
pub mod proof_map;
pub mod rules;
pub mod private_proofs;
pub mod laws;

pub use ledger::{
    AccountId, Balance, CryptoHash, Duration, Error, Host, StorageUsage, Timestamp, Transfer,
    STORAGE_PRICE_PER_BYTE,
};
pub use proof_map::{PrivateProof, ProofMap};
pub use rules::{ProofStatus, ProofView, State, Stored};
pub use private_proofs::{assert_payment, required_cost, to_nanos};

verus! {

/// The registry: its owner, the active proofs and the revoked ones.
#[derive(Debug)]
pub struct Popskl {
    pub owner: AccountId,
    pub proofs: ProofMap,
    pub terminated_proofs: ProofMap,
}

impl View for Popskl {
    type V = State;

    open spec fn view(&self) -> State {
        State { owner: self.owner, active: self.proofs@, terminated: self.terminated_proofs@ }
    }
}

impl Popskl {
    /// Both maps are well formed.
    pub open spec fn wf(&self) -> bool {
        self.proofs.wf() && self.terminated_proofs.wf()
    }

    /// A registry without proofs, owned by `owner`.
    pub fn new(owner: AccountId) -> (registry: Self)
        ensures
            registry.wf(),
            registry@ == (State { owner, active: Map::empty(), terminated: Map::empty() }),
    {
        Popskl { owner, proofs: ProofMap::new(), terminated_proofs: ProofMap::new() }
    }

    /// Hands the owner what the account holds beyond the reserve for the
    /// storage in use. Only the owner may ask; a balance below the reserve is
    /// refused. The registry itself is not changed.
    pub fn withdraw_funds(&self, host: &Host) -> (r: Result<Transfer, Error>)
        ensures
            match rules::withdraw_refusal(self@, *host) {
                Some(e) => r == Err::<Transfer, Error>(e),
                None => r == Ok::<Transfer, Error>(rules::withdrawal(self@, *host)),
            },
    {
        if self.owner != host.predecessor {
            return Err(Error::Unauthorized);
        }
        let size: Balance = host.storage_usage as Balance;
        match size.checked_mul(host.storage_byte_cost) {
            Some(storage_costs) => {
                if host.account_balance < storage_costs {
                    Err(Error::InsufficientReserve)
                } else {
                    Ok(
                        Transfer {
                            receiver: self.owner.clone(),
                            amount: host.account_balance - storage_costs,
                        },
                    )
                }
            },
            None => Err(Error::InsufficientReserve),
        }
    }
}

} // verus!
