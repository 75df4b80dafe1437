use proof_of_existence::ledger::{Balances, LedgerError, ReservationLedger};
use proof_of_existence::pallet::{Config, DispatchError, Error, Event, Pallet};
use proof_of_existence::proofs::Proof;
use proof_of_existence::store::Claim;

const STAKE: u64 = 1000;

fn config() -> Config {
    Config { max_proof_len: 16, reserve_amount: STAKE }
}

fn proof_of(bytes: &[u8]) -> Proof {
    config().bound_proof(bytes.to_vec()).expect("proof within bound")
}

fn registry(funded: &[(u64, u64)]) -> Pallet<Balances> {
    let mut balances = Balances::new();
    for (who, free) in funded {
        balances.set_free_balance(*who, *free);
    }
    Pallet::new(config(), balances)
}

#[test]
fn create_then_revoke_scenario() {
    let mut pallet = registry(&[(1, 1000)]);
    pallet.set_block_number(7);
    assert_eq!(pallet.create_claim(1, proof_of(b"hash1")), Ok(()));
    assert_eq!(pallet.ledger().free_balance(1), 0);
    assert_eq!(pallet.ledger().reserved_balance(1), 1000);
    assert_eq!(
        pallet.claim_of(&proof_of(b"hash1")),
        Some(Claim { owner: 1, claimed_at: 7 })
    );
    assert_eq!(pallet.revoke_claim(1, proof_of(b"hash1")), Ok(()));
    assert_eq!(pallet.ledger().free_balance(1), 1000);
    assert_eq!(pallet.ledger().reserved_balance(1), 0);
    assert_eq!(pallet.claim_of(&proof_of(b"hash1")), None);
}

#[test]
fn second_claim_is_refused() {
    let mut pallet = registry(&[(1, 5000), (2, 5000)]);
    assert_eq!(pallet.create_claim(1, proof_of(b"doc")), Ok(()));
    assert_eq!(
        pallet.create_claim(2, proof_of(b"doc")),
        Err(DispatchError::Module(Error::ProofAlreadyClaimed))
    );
    assert_eq!(
        pallet.create_claim(1, proof_of(b"doc")),
        Err(DispatchError::Module(Error::ProofAlreadyClaimed))
    );
    assert_eq!(pallet.claim_of(&proof_of(b"doc")), Some(Claim { owner: 1, claimed_at: 0 }));
    assert_eq!(pallet.ledger().free_balance(2), 5000);
    assert_eq!(pallet.ledger().reserved_balance(1), 1000);
}

#[test]
fn revoke_frees_the_proof_for_another() {
    let mut pallet = registry(&[(1, 1000), (3, 2500)]);
    assert_eq!(pallet.create_claim(1, proof_of(b"doc")), Ok(()));
    assert_eq!(pallet.revoke_claim(1, proof_of(b"doc")), Ok(()));
    pallet.set_block_number(9);
    assert_eq!(pallet.create_claim(3, proof_of(b"doc")), Ok(()));
    assert_eq!(pallet.claim_of(&proof_of(b"doc")), Some(Claim { owner: 3, claimed_at: 9 }));
    assert_eq!(pallet.ledger().free_balance(1), 1000);
    assert_eq!(pallet.ledger().free_balance(3), 1500);
    assert_eq!(pallet.ledger().reserved_balance(3), 1000);
}

#[test]
fn revoke_by_other_account_is_refused() {
    let mut pallet = registry(&[(1, 1000), (2, 1000)]);
    pallet.set_block_number(4);
    assert_eq!(pallet.create_claim(1, proof_of(b"doc")), Ok(()));
    pallet.set_block_number(5);
    assert_eq!(
        pallet.revoke_claim(2, proof_of(b"doc")),
        Err(DispatchError::Module(Error::NotProofOwner))
    );
    assert_eq!(pallet.claim_of(&proof_of(b"doc")), Some(Claim { owner: 1, claimed_at: 4 }));
    assert_eq!(pallet.ledger().reserved_balance(1), 1000);
    assert_eq!(pallet.ledger().free_balance(2), 1000);
    assert_eq!(pallet.events().len(), 1);
}

#[test]
fn revoke_of_unclaimed_proof_is_refused() {
    let mut pallet = registry(&[(1, 1000)]);
    assert_eq!(pallet.create_claim(1, proof_of(b"kept")), Ok(()));
    assert_eq!(
        pallet.revoke_claim(1, proof_of(b"never")),
        Err(DispatchError::Module(Error::NoSuchProof))
    );
    assert_eq!(pallet.claim_of(&proof_of(b"kept")), Some(Claim { owner: 1, claimed_at: 0 }));
    assert_eq!(pallet.claim_of(&proof_of(b"never")), None);
    assert_eq!(pallet.events().len(), 1);
}

#[test]
fn claim_without_stake_is_refused() {
    let mut pallet = registry(&[(1, 999)]);
    assert_eq!(
        pallet.create_claim(1, proof_of(b"doc")),
        Err(DispatchError::Ledger(LedgerError::InsufficientBalance))
    );
    assert_eq!(pallet.claim_of(&proof_of(b"doc")), None);
    assert_eq!(pallet.ledger().free_balance(1), 999);
    assert_eq!(pallet.ledger().reserved_balance(1), 0);
    assert!(pallet.events().is_empty());
}

#[test]
fn claim_by_unknown_account_is_refused() {
    let mut pallet = registry(&[]);
    assert_eq!(
        pallet.create_claim(42, proof_of(b"doc")),
        Err(DispatchError::Ledger(LedgerError::InsufficientBalance))
    );
    assert_eq!(pallet.claim_of(&proof_of(b"doc")), None);
}

#[test]
fn proofs_differing_by_one_byte_are_unrelated() {
    let mut pallet = registry(&[(1, 1000), (2, 1000)]);
    assert_eq!(pallet.create_claim(1, proof_of(&[1, 2, 3])), Ok(()));
    assert_eq!(pallet.create_claim(2, proof_of(&[1, 2, 4])), Ok(()));
    assert_eq!(pallet.claim_of(&proof_of(&[1, 2, 3])), Some(Claim { owner: 1, claimed_at: 0 }));
    assert_eq!(pallet.claim_of(&proof_of(&[1, 2, 4])), Some(Claim { owner: 2, claimed_at: 0 }));
    assert_eq!(pallet.claim_of(&proof_of(&[1, 2])), None);
}

#[test]
fn empty_proof_can_be_claimed() {
    let mut pallet = registry(&[(1, 1000)]);
    assert_eq!(pallet.create_claim(1, proof_of(&[])), Ok(()));
    assert_eq!(pallet.claim_of(&proof_of(&[])), Some(Claim { owner: 1, claimed_at: 0 }));
}

#[test]
fn revoke_with_reserve_shortfall_still_succeeds() {
    let mut pallet = registry(&[(1, 1000)]);
    assert_eq!(pallet.create_claim(1, proof_of(b"doc")), Ok(()));
    assert_eq!(pallet.ledger_mut().unreserve(1, 600), 600);
    assert_eq!(pallet.ledger().reserved_balance(1), 400);
    assert_eq!(pallet.revoke_claim(1, proof_of(b"doc")), Ok(()));
    assert_eq!(pallet.claim_of(&proof_of(b"doc")), None);
    assert_eq!(pallet.ledger().free_balance(1), 1000);
    assert_eq!(pallet.ledger().reserved_balance(1), 0);
}

#[test]
fn events_record_each_transition() {
    let mut pallet = registry(&[(1, 2000)]);
    assert_eq!(pallet.create_claim(1, proof_of(b"a")), Ok(()));
    assert_eq!(pallet.create_claim(1, proof_of(b"a")), Err(DispatchError::Module(Error::ProofAlreadyClaimed)));
    assert_eq!(pallet.revoke_claim(1, proof_of(b"a")), Ok(()));
    let events = pallet.events();
    assert_eq!(events.len(), 2);
    match &events[0] {
        Event::ClaimCreated(who, p) => {
            assert_eq!(*who, 1);
            assert_eq!(p.as_bytes(), b"a");
        }
        other => panic!("unexpected event {:?}", other),
    }
    match &events[1] {
        Event::ClaimRevoked(who, p) => {
            assert_eq!(*who, 1);
            assert_eq!(p.as_bytes(), b"a");
        }
        other => panic!("unexpected event {:?}", other),
    }
}

#[test]
fn proof_bound_is_checked_at_construction() {
    let cfg = Config { max_proof_len: 3, reserve_amount: STAKE };
    assert!(cfg.bound_proof(vec![1, 2, 3]).is_some());
    assert!(cfg.bound_proof(vec![1, 2, 3, 4]).is_none());
    assert_eq!(cfg.bound_proof(vec![9, 8]).map(|p| p.len()), Some(2));
    let p = Proof::bounded(vec![5, 6], 2).expect("fits");
    assert!(p.same_as(&p.copy()));
    assert!(!p.same_as(&Proof::bounded(vec![5, 7], 2).expect("fits")));
}

#[test]
fn ledger_unreserve_releases_at_most_what_is_reserved() {
    let mut balances = Balances::new();
    balances.set_free_balance(1, 500);
    assert_eq!(balances.reserve(1, 200), Ok(()));
    assert_eq!(balances.unreserve(1, 1000), 200);
    assert_eq!(balances.free_balance(1), 500);
    assert_eq!(balances.reserved_balance(1), 0);
    assert_eq!(balances.reserve(1, 501), Err(LedgerError::InsufficientBalance));
    assert_eq!(balances.free_balance(1), 500);
}
