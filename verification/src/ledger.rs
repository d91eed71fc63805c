//! The values exchanged with the host ledger.

use vstd::prelude::*;

verus! {

/// The identity of an account on the ledger.
pub type AccountId = String;

/// A point in time, in nanoseconds.
pub type Timestamp = u64;

/// A span of time, in nanoseconds.
pub type Duration = u64;

/// An amount of the ledger's native token, in its smallest unit.
pub type Balance = u128;

/// A number of bytes of persistent storage.
pub type StorageUsage = u64;

/// The digest that stands for a secret or document.
pub type CryptoHash = [u8; 32];

/// What the ledger reports to one call.
#[derive(Debug, Clone)]
pub struct Host {
    /// Who makes the call.
    pub predecessor: AccountId,
    /// The ledger's clock.
    pub block_timestamp: Timestamp,
    /// What the caller attached to the call.
    pub attached_deposit: Balance,
    /// What the registry's account holds.
    pub account_balance: Balance,
    /// The bytes of persistent storage in use when the call begins.
    pub storage_usage: StorageUsage,
    /// The price of one byte of persistent storage.
    pub storage_byte_cost: Balance,
}

/// The price that the ledger asks for one byte of persistent storage.
pub const STORAGE_PRICE_PER_BYTE: Balance = 10_000_000_000_000_000_000;

/// Calls `near_sdk::env::storage_byte_cost`. That function asks the ledger
/// nothing: it hands out a constant of its crate, and the contract states
/// that constant.
#[verifier::external_body]
fn storage_byte_cost() -> (price: Balance)
    ensures
        price == STORAGE_PRICE_PER_BYTE,
{
    near_sdk::env::storage_byte_cost().as_yoctonear()
}

impl Host {
    /// What the ledger reports to a call, with the price of storage that the
    /// ledger's own library gives.
    pub fn new(
        predecessor: AccountId,
        block_timestamp: Timestamp,
        attached_deposit: Balance,
        account_balance: Balance,
        storage_usage: StorageUsage,
    ) -> (host: Host)
        ensures
            host == (Host {
                predecessor,
                block_timestamp,
                attached_deposit,
                account_balance,
                storage_usage,
                storage_byte_cost: STORAGE_PRICE_PER_BYTE,
            }),
    {
        Host {
            predecessor,
            block_timestamp,
            attached_deposit,
            account_balance,
            storage_usage,
            storage_byte_cost: storage_byte_cost(),
        }
    }
}

/// A native transfer that an operation asks the ledger to make once the call
/// is over. The registry never learns its outcome.
#[derive(Debug, Clone)]
pub struct Transfer {
    pub receiver: AccountId,
    pub amount: Balance,
}

/// Why a call was refused. Every refusal leaves the registry as it was.
#[derive(Debug, Clone, Copy, PartialEq, Eq, Structural)]
pub enum Error {
    /// The hash is already an active proof.
    AlreadyExists,
    /// The hash is not an active proof.
    NotFound,
    /// The caller is not the identity that the operation is reserved for.
    Unauthorized,
    /// The attached deposit does not cover the storage that the call adds.
    InsufficientPayment,
    /// The account balance does not cover the storage in use.
    InsufficientReserve,
}

/// The sentence that tells a caller why a call was refused.
pub open spec fn message_of(e: Error) -> Seq<char> {
    match e {
        Error::AlreadyExists => "Proof is already stored!"@,
        Error::NotFound => "Proof not found."@,
        Error::Unauthorized => "Only the owner is allowed to do this."@,
        Error::InsufficientPayment => "Requires more yoctoNEAR attached."@,
        Error::InsufficientReserve => "Balance does not cover the storage in use."@,
    }
}

impl Error {
    /// The sentence that tells a caller why the call was refused.
    pub fn message(&self) -> (text: &'static str)
        ensures
            text@ == message_of(*self),
    {
        match self {
            Error::AlreadyExists => "Proof is already stored!",
            Error::NotFound => "Proof not found.",
            Error::Unauthorized => "Only the owner is allowed to do this.",
            Error::InsufficientPayment => "Requires more yoctoNEAR attached.",
            Error::InsufficientReserve => "Balance does not cover the storage in use.",
        }
    }
}

} // verus!
