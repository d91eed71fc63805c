//! The registry's rules, stated over its mathematical model.
//!
//! A registry is modelled by its owner and two maps from a hash's bytes to
//! the proof stored under it. Each operation is described by the refusal it
//! answers with, if any, and by the state and result it leaves otherwise.

use vstd::prelude::*;
use crate::ledger::{AccountId, Balance, Duration, Error, Host, StorageUsage, Timestamp, Transfer};
use crate::proof_map::PrivateProof;

verus! {

/// The model of a registry.
pub struct State {
    /// The account that may withdraw.
    pub owner: AccountId,
    /// The proofs that were created and not revoked.
    pub active: Map<Seq<u8>, PrivateProof>,
    /// The proofs that their issuers revoked.
    pub terminated: Map<Seq<u8>, PrivateProof>,
}

/// What a caller is shown of a proof.
#[derive(Debug, Clone)]
pub struct ProofView {
    pub issuer: AccountId,
    pub created_at: Timestamp,
    pub timeout: Option<Duration>,
}

/// What the registry says of a hash at a given time.
#[derive(Debug, Clone)]
pub enum ProofStatus {
    /// The hash was never stored.
    Invalid,
    /// The issuer revoked the proof.
    Terminated(ProofView),
    /// The proof is active, and its timeout has passed.
    Expired(ProofView),
    /// The proof is active and in force.
    Valid(ProofView),
}

/// What a successful `store_proof` hands back.
#[derive(Debug, Clone)]
pub struct Stored {
    /// The ledger's clock at the call, as recorded in the proof.
    pub created_at: Timestamp,
    /// The transfer that returns what was paid beyond the cost, if anything was.
    pub refund: Option<Transfer>,
}

/// A number of seconds, in nanoseconds.
pub open spec fn nanos(seconds: u32) -> Duration {
    (seconds * 1_000_000_000) as Duration
}

/// The projection of a proof that callers are shown.
pub open spec fn view_of(proof: PrivateProof) -> ProofView {
    ProofView { issuer: proof.issuer, created_at: proof.created_at, timeout: proof.timeout }
}

/// A proof has expired once the clock is past its creation time plus its
/// timeout. At that very instant it is still in force.
pub open spec fn expired(proof: PrivateProof, now: Timestamp) -> bool {
    match proof.timeout {
        Some(timeout) => proof.created_at + timeout < now,
        None => false,
    }
}

/// The status of `hash` at the time `now`: an active proof comes before a
/// revoked one.
pub open spec fn status_at(s: State, hash: Seq<u8>, now: Timestamp) -> ProofStatus {
    if s.active.contains_key(hash) {
        if expired(s.active[hash], now) {
            ProofStatus::Expired(view_of(s.active[hash]))
        } else {
            ProofStatus::Valid(view_of(s.active[hash]))
        }
    } else if s.terminated.contains_key(hash) {
        ProofStatus::Terminated(view_of(s.terminated[hash]))
    } else {
        ProofStatus::Invalid
    }
}

/// The proof that a call creates: issued by the caller, at the ledger's time.
pub open spec fn issued(host: Host, timeout: Option<u32>) -> PrivateProof {
    PrivateProof {
        issuer: host.predecessor,
        created_at: host.block_timestamp,
        timeout: match timeout {
            Some(seconds) => Some(nanos(seconds)),
            None => None,
        },
    }
}

/// The price of the storage that a call added: the bytes by which the
/// storage counter grew, times the price of a byte.
pub open spec fn required_cost(host: Host, storage_after: StorageUsage) -> int {
    (storage_after - host.storage_usage) * host.storage_byte_cost
}

/// The transfer that gives the caller back what the deposit holds beyond the
/// cost; none where nothing is left over.
pub open spec fn refund_of(host: Host, storage_after: StorageUsage) -> Option<Transfer> {
    let excess = host.attached_deposit - required_cost(host, storage_after);
    if excess > 0 {
        Some(Transfer { receiver: host.predecessor, amount: excess as Balance })
    } else {
        None
    }
}

/// Why `store_proof` refuses, if it does. A hash that was revoked before is
/// no obstacle.
pub open spec fn store_refusal(s: State, hash: Seq<u8>, host: Host, storage_after: StorageUsage)
    -> Option<Error> {
    if s.active.contains_key(hash) {
        Some(Error::AlreadyExists)
    } else if host.attached_deposit < required_cost(host, storage_after) {
        Some(Error::InsufficientPayment)
    } else {
        None
    }
}

/// The registry once `proof` is stored under `hash`.
pub open spec fn after_store(s: State, hash: Seq<u8>, proof: PrivateProof) -> State {
    State { owner: s.owner, active: s.active.insert(hash, proof), terminated: s.terminated }
}

/// Why `terminate_proof` refuses, if it does.
pub open spec fn terminate_refusal(s: State, hash: Seq<u8>, caller: AccountId) -> Option<Error> {
    if !s.active.contains_key(hash) {
        Some(Error::NotFound)
    } else if s.active[hash].issuer@ != caller@ {
        Some(Error::Unauthorized)
    } else {
        None
    }
}

/// The registry once the active proof under `hash` is revoked: the record
/// moves, as it is, from the active proofs to the revoked ones.
pub open spec fn after_terminate(s: State, hash: Seq<u8>) -> State {
    State {
        owner: s.owner,
        active: s.active.remove(hash),
        terminated: s.terminated.insert(hash, s.active[hash]),
    }
}

/// What must stay on the account to pay for the storage in use.
pub open spec fn reserved(host: Host) -> int {
    host.storage_usage * host.storage_byte_cost
}

/// Why `withdraw_funds` refuses, if it does.
pub open spec fn withdraw_refusal(s: State, host: Host) -> Option<Error> {
    if host.predecessor@ != s.owner@ {
        Some(Error::Unauthorized)
    } else if host.account_balance < reserved(host) {
        Some(Error::InsufficientReserve)
    } else {
        None
    }
}

/// The transfer that hands the owner all but the reserve.
pub open spec fn withdrawal(s: State, host: Host) -> Transfer {
    Transfer { receiver: s.owner, amount: (host.account_balance - reserved(host)) as Balance }
}

} // verus!
