//! What holds of the registry over all states and calls, proved from the
//! rules that the operations are specified by.

use vstd::prelude::*;
use crate::ledger::{AccountId, Balance, Error, Host, StorageUsage, Timestamp, Transfer};
use crate::rules::{
    after_store, after_terminate, expired, issued, nanos, refund_of, required_cost, reserved,
    status_at, store_refusal, terminate_refusal, view_of, withdraw_refusal, withdrawal,
    ProofStatus, ProofView, State,
};

verus! {

/// A proof that has just been stored is reported as valid, with the caller as
/// issuer, the ledger's time as creation time and the timeout that was asked
/// for: at the time of the call, and at any later time at which it has not
/// expired.
pub proof fn law_stored_proof_is_valid(
    s: State,
    hash: Seq<u8>,
    timeout: Option<u32>,
    host: Host,
    storage_after: StorageUsage,
    now: Timestamp,
)
    requires
        store_refusal(s, hash, host, storage_after) is None,
    ensures
        status_at(after_store(s, hash, issued(host, timeout)), hash, host.block_timestamp)
            == ProofStatus::Valid(
            ProofView {
                issuer: host.predecessor,
                created_at: host.block_timestamp,
                timeout: match timeout {
                    Some(seconds) => Some(nanos(seconds)),
                    None => None,
                },
            },
        ),
        !expired(issued(host, timeout), now) ==> status_at(
            after_store(s, hash, issued(host, timeout)),
            hash,
            now,
        ) == status_at(after_store(s, hash, issued(host, timeout)), hash, host.block_timestamp),
{
}

/// A hash that has just been stored cannot be stored again: whoever asks, at
/// whatever time and with whatever deposit, is answered `AlreadyExists`.
pub proof fn law_second_store_is_refused(
    s: State,
    hash: Seq<u8>,
    timeout: Option<u32>,
    first: Host,
    first_storage_after: StorageUsage,
    second: Host,
    second_storage_after: StorageUsage,
)
    requires
        store_refusal(s, hash, first, first_storage_after) is None,
    ensures
        store_refusal(
            after_store(s, hash, issued(first, timeout)),
            hash,
            second,
            second_storage_after,
        ) == Some(Error::AlreadyExists),
{
}

/// Only the issuer may revoke: any other caller of `terminate_proof` on an
/// active proof is answered `Unauthorized`.
pub proof fn law_stranger_cannot_terminate(s: State, hash: Seq<u8>, caller: AccountId)
    requires
        s.active.contains_key(hash),
        caller@ != s.active[hash].issuer@,
    ensures
        terminate_refusal(s, hash, caller) == Some(Error::Unauthorized),
{
}

/// The issuer revokes an active proof exactly once: the first call is not
/// refused, any call after it is answered `NotFound`, and the hash is from
/// then on reported as terminated, with the record as it was stored.
pub proof fn law_issuer_terminates_once(
    s: State,
    hash: Seq<u8>,
    issuer: AccountId,
    later_caller: AccountId,
    now: Timestamp,
)
    requires
        s.active.contains_key(hash),
        issuer@ == s.active[hash].issuer@,
    ensures
        terminate_refusal(s, hash, issuer) is None,
        terminate_refusal(after_terminate(s, hash), hash, later_caller) == Some(Error::NotFound),
        status_at(after_terminate(s, hash), hash, now) == ProofStatus::Terminated(
            view_of(s.active[hash]),
        ),
{
}

/// An active proof with a timeout is valid at every time up to its creation
/// time plus the timeout, that instant included, and expired at every time
/// after it.
pub proof fn law_expiry(s: State, hash: Seq<u8>, now: Timestamp)
    requires
        s.active.contains_key(hash),
        s.active[hash].timeout is Some,
    ensures
        now <= s.active[hash].created_at + s.active[hash].timeout->0 ==> status_at(s, hash, now)
            == ProofStatus::Valid(view_of(s.active[hash])),
        now >= s.active[hash].created_at + s.active[hash].timeout->0 + 1 ==> status_at(
            s,
            hash,
            now,
        ) == ProofStatus::Expired(view_of(s.active[hash])),
{
}

/// An active proof without a timeout is valid at every time.
pub proof fn law_no_timeout_never_expires(s: State, hash: Seq<u8>, now: Timestamp)
    requires
        s.active.contains_key(hash),
        s.active[hash].timeout is None,
    ensures
        status_at(s, hash, now) == ProofStatus::Valid(view_of(s.active[hash])),
{
}

/// Storing costs exactly what the storage costs: a deposit below the cost is
/// answered `InsufficientPayment`, a deposit equal to it is taken whole, and
/// of a larger one the caller gets back the difference, no more and no less.
pub proof fn law_exact_payment(s: State, hash: Seq<u8>, host: Host, storage_after: StorageUsage)
    requires
        !s.active.contains_key(hash),
        host.storage_usage <= storage_after,
    ensures
        host.attached_deposit < required_cost(host, storage_after) ==> store_refusal(
            s,
            hash,
            host,
            storage_after,
        ) == Some(Error::InsufficientPayment),
        host.attached_deposit == required_cost(host, storage_after) ==> store_refusal(
            s,
            hash,
            host,
            storage_after,
        ) is None && refund_of(host, storage_after) is None,
        host.attached_deposit > required_cost(host, storage_after) ==> store_refusal(
            s,
            hash,
            host,
            storage_after,
        ) is None && refund_of(host, storage_after) == Some(
            Transfer {
                receiver: host.predecessor,
                amount: (host.attached_deposit - required_cost(host, storage_after)) as Balance,
            },
        ) && host.attached_deposit - refund_of(host, storage_after)->0.amount == required_cost(
            host,
            storage_after,
        ),
{
    assert(required_cost(host, storage_after) >= 0) by (nonlinear_arith)
        requires
            host.storage_usage <= storage_after,
            required_cost(host, storage_after) == (storage_after - host.storage_usage)
                * host.storage_byte_cost,
    ;
}

/// Nobody but the owner withdraws; the owner is handed the balance less the
/// reserve for the storage in use, which leaves exactly that reserve on the
/// account. A balance below the reserve is refused.
pub proof fn law_withdrawal_leaves_reserve(s: State, host: Host)
    ensures
        host.predecessor@ != s.owner@ ==> withdraw_refusal(s, host) == Some(Error::Unauthorized),
        host.predecessor@ == s.owner@ && host.account_balance < reserved(host) ==> withdraw_refusal(
            s,
            host,
        ) == Some(Error::InsufficientReserve),
        host.predecessor@ == s.owner@ && host.account_balance >= reserved(host) ==> withdraw_refusal(
            s,
            host,
        ) is None && withdrawal(s, host).receiver == s.owner && withdrawal(s, host).amount
            == host.account_balance - reserved(host) && host.account_balance - withdrawal(
            s,
            host,
        ).amount == reserved(host),
{
    assert(reserved(host) >= 0) by (nonlinear_arith)
        requires
            reserved(host) == host.storage_usage * host.storage_byte_cost,
    ;
}

/// No operation erases a revocation or changes the owner. Storing leaves the
/// revoked proofs as they are. Revoking keeps every revoked hash, leaves the
/// records of all other hashes as they were, and files the revoked proof as
/// it was stored.
pub proof fn law_revocations_are_permanent(
    s: State,
    hash: Seq<u8>,
    other: Seq<u8>,
    timeout: Option<u32>,
    host: Host,
)
    requires
        s.terminated.contains_key(other),
    ensures
        after_store(s, hash, issued(host, timeout)).terminated == s.terminated,
        after_store(s, hash, issued(host, timeout)).owner == s.owner,
        after_terminate(s, hash).terminated.contains_key(other),
        other != hash ==> after_terminate(s, hash).terminated[other] == s.terminated[other],
        after_terminate(s, hash).terminated[hash] == s.active[hash],
        after_terminate(s, hash).owner == s.owner,
{
}

/// An active proof is never changed: storing or revoking another hash leaves
/// it as it is.
pub proof fn law_active_proofs_are_immutable(
    s: State,
    hash: Seq<u8>,
    other: Seq<u8>,
    timeout: Option<u32>,
    host: Host,
)
    requires
        s.active.contains_key(other),
        other != hash,
    ensures
        after_store(s, hash, issued(host, timeout)).active.contains_key(other),
        after_store(s, hash, issued(host, timeout)).active[other] == s.active[other],
        after_terminate(s, hash).active.contains_key(other),
        after_terminate(s, hash).active[other] == s.active[other],
{
}

/// While no revoked hash is stored again, no hash is both active and revoked.
pub proof fn law_active_and_revoked_stay_apart(
    s: State,
    hash: Seq<u8>,
    timeout: Option<u32>,
    host: Host,
)
    requires
        s.active.dom().disjoint(s.terminated.dom()),
    ensures
        !s.terminated.contains_key(hash) ==> after_store(
            s,
            hash,
            issued(host, timeout),
        ).active.dom().disjoint(after_store(s, hash, issued(host, timeout)).terminated.dom()),
        s.active.contains_key(hash) ==> after_terminate(s, hash).active.dom().disjoint(
            after_terminate(s, hash).terminated.dom(),
        ),
{
}

} // verus!
