//! Creating, revoking and querying proofs, and the payment for the storage
//! that a new proof takes.

use vstd::prelude::*;
use crate::ledger::{
    AccountId, Balance, CryptoHash, Duration, Error, Host, StorageUsage, Timestamp, Transfer,
};
use crate::proof_map::PrivateProof;
use crate::rules::{ProofStatus, ProofView, Stored};
use crate::rules;
use crate::Popskl;

verus! {

/// What a caller is shown of a proof: its issuer, its creation time and its
/// timeout, as they are stored.
impl<'a> From<&'a PrivateProof> for ProofView {
    fn from(proof: &'a PrivateProof) -> (view: Self) {
        ProofView {
            issuer: proof.issuer.clone(),
            created_at: proof.created_at,
            timeout: proof.timeout,
        }
    }
}

impl<'a> vstd::std_specs::convert::FromSpecImpl<&'a PrivateProof> for ProofView {
    open spec fn obeys_from_spec() -> bool {
        true
    }

    open spec fn from_spec(proof: &'a PrivateProof) -> Self {
        rules::view_of(*proof)
    }
}

impl PrivateProof {
    /// The proof that a call creates: issued by the caller, at the ledger's
    /// time, with the timeout that was asked for in seconds.
    pub fn issue(host: &Host, timeout: Option<u32>) -> (proof: PrivateProof)
        ensures
            proof == rules::issued(*host, timeout),
    {
        PrivateProof {
            issuer: host.predecessor.clone(),
            created_at: host.block_timestamp,
            timeout: match timeout {
                Some(seconds) => Some(to_nanos(seconds)),
                None => None,
            },
        }
    }
}

/// A number of seconds, in nanoseconds.
pub fn to_nanos(seconds: u32) -> (nanoseconds: Duration)
    ensures
        nanoseconds == seconds * 1_000_000_000,
        nanoseconds == rules::nanos(seconds),
{
    let wide: u64 = seconds as u64;
    wide * 1_000_000_000
}

/// Whether the proof's timeout has passed at the time `now`.
fn is_expired(proof: &PrivateProof, now: Timestamp) -> (r: bool)
    ensures
        r == rules::expired(*proof, now),
{
    match proof.timeout {
        Some(timeout) => match proof.created_at.checked_add(timeout) {
            Some(end) => end < now,
            None => false,
        },
        None => false,
    }
}

/// The price of the storage that the call added, where it can be paid at
/// all: `None` stands for a price beyond every balance.
pub fn required_cost(host: &Host, storage_after: StorageUsage) -> (cost: Option<Balance>)
    requires
        host.storage_usage <= storage_after,
    ensures
        match cost {
            Some(c) => c == rules::required_cost(*host, storage_after),
            None => rules::required_cost(*host, storage_after) > Balance::MAX,
        },
{
    let growth: Balance = (storage_after - host.storage_usage) as Balance;
    growth.checked_mul(host.storage_byte_cost)
}

/// Holds the attached deposit against the price of the storage that the call
/// added. A deposit below the price is refused; what it holds beyond the
/// price goes back to the caller.
pub fn assert_payment(host: &Host, storage_after: StorageUsage) -> (r: Result<
    Option<Transfer>,
    Error,
>)
    requires
        host.storage_usage <= storage_after,
    ensures
        r == (if host.attached_deposit < rules::required_cost(*host, storage_after) {
            Err::<Option<Transfer>, Error>(Error::InsufficientPayment)
        } else {
            Ok::<Option<Transfer>, Error>(rules::refund_of(*host, storage_after))
        }),
{
    match required_cost(host, storage_after) {
        Some(cost) => {
            if host.attached_deposit < cost {
                Err(Error::InsufficientPayment)
            } else {
                let refund: Balance = host.attached_deposit - cost;
                if refund > 0 {
                    Ok(Some(Transfer { receiver: host.predecessor.clone(), amount: refund }))
                } else {
                    Ok(None)
                }
            }
        },
        None => Err(Error::InsufficientPayment),
    }
}

impl Popskl {
    /// Creates a proof for `hash`, issued by the caller at the ledger's time,
    /// and returns that time with the refund of what was paid beyond the cost.
    ///
    /// `storage_after` is the ledger's storage counter once the record is
    /// written. The call is refused where `hash` is already active, or where
    /// the deposit does not cover the storage added; the registry is then
    /// left as it was.
    pub fn store_proof(
        &mut self,
        hash: CryptoHash,
        timeout: Option<u32>,
        host: &Host,
        storage_after: StorageUsage,
    ) -> (r: Result<Stored, Error>)
        requires
            old(self).wf(),
            host.storage_usage <= storage_after,
        ensures
            final(self).wf(),
            match rules::store_refusal(old(self)@, hash@, *host, storage_after) {
                Some(e) => r == Err::<Stored, Error>(e) && final(self)@ == old(self)@,
                None => r == Ok::<Stored, Error>(
                    Stored {
                        created_at: host.block_timestamp,
                        refund: rules::refund_of(*host, storage_after),
                    },
                ) && final(self)@ == rules::after_store(
                    old(self)@,
                    hash@,
                    rules::issued(*host, timeout),
                ),
            },
    {
        if self.proofs.contains_key(&hash) {
            return Err(Error::AlreadyExists);
        }
        match assert_payment(host, storage_after) {
            Err(e) => Err(e),
            Ok(refund) => {
                self.proofs.insert(hash, PrivateProof::issue(host, timeout));
                Ok(Stored { created_at: host.block_timestamp, refund })
            },
        }
    }

    /// Revokes the active proof under `hash`: the record moves, as it is, to
    /// the revoked proofs. Only its issuer may do so. A refused call leaves
    /// the registry as it was.
    pub fn terminate_proof(&mut self, hash: CryptoHash, caller: &AccountId) -> (r: Result<(), Error>)
        requires
            old(self).wf(),
        ensures
            final(self).wf(),
            match rules::terminate_refusal(old(self)@, hash@, *caller) {
                Some(e) => r == Err::<(), Error>(e) && final(self)@ == old(self)@,
                None => r == Ok::<(), Error>(()) && final(self)@ == rules::after_terminate(
                    old(self)@,
                    hash@,
                ),
            },
    {
        let allowed = match self.proofs.get(&hash) {
            None => {
                return Err(Error::NotFound);
            },
            Some(proof) => proof.issuer == *caller,
        };
        if !allowed {
            return Err(Error::Unauthorized);
        }
        match self.proofs.remove(&hash) {
            Some(proof) => {
                self.terminated_proofs.insert(hash, proof);
                Ok(())
            },
            None => Err(Error::NotFound),
        }
    }

    /// The status of `hash` at the time `now`. Nothing is changed.
    pub fn validate_proof(&self, hash: CryptoHash, now: Timestamp) -> (status: ProofStatus)
        requires
            self.wf(),
        ensures
            status == rules::status_at(self@, hash@, now),
    {
        match self.proofs.get(&hash) {
            Some(proof) => {
                if is_expired(proof, now) {
                    ProofStatus::Expired(ProofView::from(proof))
                } else {
                    ProofStatus::Valid(ProofView::from(proof))
                }
            },
            None => match self.terminated_proofs.get(&hash) {
                Some(proof) => ProofStatus::Terminated(ProofView::from(proof)),
                None => ProofStatus::Invalid,
            },
        }
    }
}

} // verus!
