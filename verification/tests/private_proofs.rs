use popskl::{
    AccountId, Balance, CryptoHash, Error, Host, Popskl, PrivateProof, ProofStatus, ProofView,
    StorageUsage, Timestamp,
};
use sha3::{Digest, Keccak256};

const ISSUER: &str = "alice.testnet";
const VISITOR: &str = "bob.testnet";
const OWNER: &str = "carol.testnet";
const CREATED_AT: Timestamp = 123456;
const STORAGE_BYTE_COST: Balance = 10_000_000_000_000_000_000;
const STORAGE_USAGE: StorageUsage = 307_200;
const ACCOUNT_BALANCE: Balance = 100_000_000_000_000_000_000_000_000;

fn account(account: &str) -> AccountId {
    account.to_string()
}

fn context(predecessor: &str) -> Host {
    Host::new(account(predecessor), CREATED_AT, 0, ACCOUNT_BALANCE, STORAGE_USAGE)
}

fn popskl() -> Popskl {
    Popskl::new(account(OWNER))
}

fn hash() -> CryptoHash {
    let digest = Keccak256::digest("12345".as_bytes());
    let mut hash: CryptoHash = [0; 32];
    hash.copy_from_slice(&digest);
    hash
}

fn test_proof() -> PrivateProof {
    PrivateProof { issuer: account(ISSUER), created_at: CREATED_AT, timeout: None }
}

fn expirable_proof(timeout: u64) -> PrivateProof {
    PrivateProof { issuer: account(ISSUER), created_at: CREATED_AT, timeout: Some(timeout) }
}

fn save_test_proof(popskl: &mut Popskl) {
    popskl.proofs.insert(hash(), test_proof());
}

fn save_terminated_proof(popskl: &mut Popskl) {
    popskl.terminated_proofs.insert(hash(), test_proof());
}

fn save_expirable_proof(popskl: &mut Popskl, timeout: u64) {
    popskl.proofs.insert(hash(), expirable_proof(timeout));
}

fn assert_proof(actual: &PrivateProof, expected: PrivateProof) {
    assert_eq!(actual.issuer, expected.issuer);
    assert_eq!(actual.created_at, expected.created_at);
    assert_eq!(actual.timeout, expected.timeout);
}

fn assert_view(actual: ProofView, expected: PrivateProof) {
    assert_eq!(actual.issuer, expected.issuer);
    assert_eq!(actual.created_at, expected.created_at);
    assert_eq!(actual.timeout, expected.timeout);
}

#[test]
fn should_store_private_proof() {
    // given
    let mut popskl = popskl();
    let mut host = context(ISSUER);
    host.attached_deposit = 99 * STORAGE_BYTE_COST;
    let hash = hash();

    // when
    let stored = popskl.store_proof(hash, None, &host, STORAGE_USAGE + 99).unwrap();

    // then
    assert_eq!(stored.created_at, CREATED_AT);
    assert!(stored.refund.is_none());
    assert!(popskl.proofs.contains_key(&hash));
    let stored = popskl.proofs.get(&hash).unwrap();
    assert_proof(stored, test_proof());
}

#[test]
fn should_check_private_proof_uniqueness() {
    // given
    let mut popskl = popskl();
    let host = context(ISSUER);
    save_test_proof(&mut popskl);

    // when
    let result = popskl.store_proof(hash(), None, &host, STORAGE_USAGE);

    // then
    assert!(matches!(result, Err(Error::AlreadyExists)));
    assert!(Error::AlreadyExists.message().contains("already stored"));
    assert_proof(popskl.proofs.get(&hash()).unwrap(), test_proof());
}

#[test]
fn should_save_timeout() {
    // given
    let mut popskl = popskl();
    let mut host = context(ISSUER);
    host.attached_deposit = 107 * STORAGE_BYTE_COST;
    let hash = hash();
    let timeout = 23;

    // when
    let stored = popskl.store_proof(hash, Some(timeout), &host, STORAGE_USAGE + 107).unwrap();

    // then
    assert_eq!(stored.created_at, CREATED_AT);
    assert!(popskl.proofs.contains_key(&hash));
    let stored = popskl.proofs.get(&hash).unwrap();
    assert_proof(stored, expirable_proof((timeout as u64) * 1_000_000_000));
}

#[test]
fn should_require_payment_for_new_proof() {
    // given
    let mut popskl = popskl();
    let host = context(ISSUER);

    // when
    let result = popskl.store_proof(hash(), None, &host, STORAGE_USAGE + 99);

    // then
    assert!(matches!(result, Err(Error::InsufficientPayment)));
    assert!(Error::InsufficientPayment.message().contains("attach"));
    assert!(!popskl.proofs.contains_key(&hash()));
}

#[test]
fn should_terminate_proof() {
    // given
    let mut popskl = popskl();
    save_test_proof(&mut popskl);
    let hash = hash();

    // when
    popskl.terminate_proof(hash, &account(ISSUER)).unwrap();

    // then
    assert!(!popskl.proofs.contains_key(&hash));
    assert!(popskl.terminated_proofs.contains_key(&hash));
    let terminated = popskl.terminated_proofs.get(&hash).unwrap();
    assert_proof(terminated, test_proof());
}

#[test]
fn should_check_ownership_before_termination() {
    // given
    let mut popskl = popskl();
    save_test_proof(&mut popskl);

    // when
    let result = popskl.terminate_proof(hash(), &account(VISITOR));

    // then
    assert_eq!(result, Err(Error::Unauthorized));
    assert!(Error::Unauthorized.message().contains("owner"));
    assert!(popskl.proofs.contains_key(&hash()));
    assert!(!popskl.terminated_proofs.contains_key(&hash()));
}

#[test]
fn should_validate_proof() {
    // given
    let mut popskl = popskl();
    save_test_proof(&mut popskl);

    // when
    let result = popskl.validate_proof(hash(), CREATED_AT);

    // then
    match result {
        ProofStatus::Valid(proof) => {
            assert_view(proof, test_proof());
        }
        _ => panic!("Proof should be valid!"),
    }
}

#[test]
fn should_validate_terminated_proof() {
    // given
    let mut popskl = popskl();
    save_terminated_proof(&mut popskl);

    // when
    let result = popskl.validate_proof(hash(), CREATED_AT);

    // then
    match result {
        ProofStatus::Terminated(proof) => {
            assert_view(proof, test_proof());
        }
        _ => panic!("Proof should be terminated!"),
    }
}

#[test]
fn should_validate_non_expired_proof() {
    // given
    let mut popskl = popskl();
    let timeout = 60;
    save_expirable_proof(&mut popskl, timeout);

    // when
    let result = popskl.validate_proof(hash(), CREATED_AT);

    // then
    match result {
        ProofStatus::Valid(proof) => {
            assert_view(proof, expirable_proof(timeout));
        }
        _ => panic!("Proof should be valid!"),
    }
}

#[test]
fn should_validate_expired_proof() {
    // given
    let mut popskl = popskl();
    let timeout = 60;
    save_expirable_proof(&mut popskl, timeout);

    // when
    let result = popskl.validate_proof(hash(), CREATED_AT + timeout + 1);

    // then
    match result {
        ProofStatus::Expired(proof) => {
            assert_view(proof, expirable_proof(timeout));
        }
        _ => panic!("Proof should be expired!"),
    }
}

#[test]
fn should_validate_invalid_proof() {
    // given
    let popskl = popskl();

    // when
    let result = popskl.validate_proof(hash(), CREATED_AT);

    // then
    match result {
        ProofStatus::Invalid => {}
        _ => panic!("Proof should be invalid!"),
    }
}

#[test]
fn proof_is_issued_by_the_caller_at_the_ledgers_time() {
    let host = context(VISITOR);
    let proof = PrivateProof::issue(&host, Some(23));
    assert_proof(
        &proof,
        PrivateProof { issuer: account(VISITOR), created_at: CREATED_AT, timeout: Some(23_000_000_000) },
    );
    assert_eq!(PrivateProof::issue(&host, None).timeout, None);
}

#[test]
fn view_is_taken_from_the_proof() {
    let view = ProofView::from(&expirable_proof(60));
    assert_eq!(view.issuer, ISSUER);
    assert_eq!(view.created_at, CREATED_AT);
    assert_eq!(view.timeout, Some(60));
}

#[test]
fn proof_is_valid_at_the_instant_its_timeout_ends() {
    let mut popskl = popskl();
    save_expirable_proof(&mut popskl, 60);
    assert!(matches!(popskl.validate_proof(hash(), CREATED_AT + 59), ProofStatus::Valid(_)));
    assert!(matches!(popskl.validate_proof(hash(), CREATED_AT + 60), ProofStatus::Valid(_)));
    assert!(matches!(popskl.validate_proof(hash(), CREATED_AT + 61), ProofStatus::Expired(_)));
    assert!(matches!(popskl.validate_proof(hash(), u64::MAX), ProofStatus::Expired(_)));
}

#[test]
fn timeout_beyond_the_clock_never_expires() {
    let mut popskl = popskl();
    save_expirable_proof(&mut popskl, u64::MAX);
    assert!(matches!(popskl.validate_proof(hash(), u64::MAX), ProofStatus::Valid(_)));
}

#[test]
fn stored_proof_is_valid_with_what_was_asked() {
    let mut popskl = popskl();
    let mut host = context(ISSUER);
    host.attached_deposit = 107 * STORAGE_BYTE_COST;
    popskl.store_proof(hash(), Some(60), &host, STORAGE_USAGE + 107).unwrap();
    match popskl.validate_proof(hash(), CREATED_AT) {
        ProofStatus::Valid(view) => {
            assert_eq!(view.issuer, ISSUER);
            assert_eq!(view.created_at, CREATED_AT);
            assert_eq!(view.timeout, Some(60_000_000_000));
        }
        _ => panic!("Proof should be valid!"),
    }
}

#[test]
fn second_store_is_refused_and_changes_nothing() {
    let mut popskl = popskl();
    let mut host = context(ISSUER);
    host.attached_deposit = 99 * STORAGE_BYTE_COST;
    popskl.store_proof(hash(), None, &host, STORAGE_USAGE + 99).unwrap();
    let mut other = context(VISITOR);
    other.block_timestamp = CREATED_AT + 5;
    other.attached_deposit = 200 * STORAGE_BYTE_COST;
    let result = popskl.store_proof(hash(), Some(1), &other, STORAGE_USAGE + 107);
    assert!(matches!(result, Err(Error::AlreadyExists)));
    assert_proof(popskl.proofs.get(&hash()).unwrap(), test_proof());
}

#[test]
fn issuer_terminates_exactly_once() {
    let mut popskl = popskl();
    save_test_proof(&mut popskl);
    assert_eq!(popskl.terminate_proof(hash(), &account(ISSUER)), Ok(()));
    assert_eq!(popskl.terminate_proof(hash(), &account(ISSUER)), Err(Error::NotFound));
    assert!(matches!(popskl.validate_proof(hash(), CREATED_AT), ProofStatus::Terminated(_)));
}

#[test]
fn terminating_an_unknown_hash_is_not_found() {
    let mut popskl = popskl();
    assert_eq!(popskl.terminate_proof(hash(), &account(ISSUER)), Err(Error::NotFound));
    assert!(Error::NotFound.message().contains("not found"));
}

#[test]
fn revoked_hash_may_be_stored_again() {
    let mut popskl = popskl();
    let mut host = context(ISSUER);
    host.attached_deposit = 99 * STORAGE_BYTE_COST;
    let stored = popskl.store_proof(hash(), None, &host, STORAGE_USAGE + 99).unwrap();
    assert_eq!(stored.created_at, CREATED_AT);
    match popskl.validate_proof(hash(), CREATED_AT) {
        ProofStatus::Valid(view) => assert_view(view, test_proof()),
        _ => panic!("Proof should be valid!"),
    }
    popskl.terminate_proof(hash(), &account(ISSUER)).unwrap();
    match popskl.validate_proof(hash(), CREATED_AT) {
        ProofStatus::Terminated(view) => assert_view(view, test_proof()),
        _ => panic!("Proof should be terminated!"),
    }
    let mut later = context(VISITOR);
    later.block_timestamp = CREATED_AT + 10;
    later.attached_deposit = 99 * STORAGE_BYTE_COST;
    let again = popskl.store_proof(hash(), None, &later, STORAGE_USAGE + 99).unwrap();
    assert_eq!(again.created_at, CREATED_AT + 10);
    match popskl.validate_proof(hash(), CREATED_AT + 10) {
        ProofStatus::Valid(view) => {
            assert_eq!(view.issuer, VISITOR);
            assert_eq!(view.created_at, CREATED_AT + 10);
        }
        _ => panic!("Proof should be valid!"),
    }
}

#[test]
fn zero_timeout_expires_right_after_creation() {
    let mut popskl = popskl();
    let mut host = context(ISSUER);
    host.attached_deposit = 107 * STORAGE_BYTE_COST;
    popskl.store_proof(hash(), Some(0), &host, STORAGE_USAGE + 107).unwrap();
    assert!(matches!(popskl.validate_proof(hash(), CREATED_AT), ProofStatus::Valid(_)));
    match popskl.validate_proof(hash(), CREATED_AT + 1) {
        ProofStatus::Expired(view) => assert_eq!(view.timeout, Some(0)),
        _ => panic!("Proof should be expired!"),
    }
}

#[test]
fn expired_proof_can_still_be_terminated_by_its_issuer() {
    let mut popskl = popskl();
    save_expirable_proof(&mut popskl, 60);
    assert!(matches!(popskl.validate_proof(hash(), CREATED_AT + 100), ProofStatus::Expired(_)));
    assert_eq!(popskl.terminate_proof(hash(), &account(ISSUER)), Ok(()));
    match popskl.validate_proof(hash(), CREATED_AT + 100) {
        ProofStatus::Terminated(view) => assert_view(view, expirable_proof(60)),
        _ => panic!("Proof should be terminated!"),
    }
}
