//! Facts about sequences of registry calls, proved from the outcomes that
//! `create_claim` and `revoke_claim` guarantee.
use vstd::prelude::*;

use crate::ledger::{LedgerError, ReservationLedger};
use crate::pallet::{DispatchError, Error, Pallet};
use crate::AccountId;

verus! {

/// Once `a` has claimed an unclaimed proof, a second claim on it by anyone
/// fails with `ProofAlreadyClaimed`, and `a` still owns it.
pub proof fn lemma_claim_is_exclusive<L: ReservationLedger>(
    s0: Pallet<L>,
    s1: Pallet<L>,
    s2: Pallet<L>,
    a: AccountId,
    b: AccountId,
    p: Seq<u8>,
    r1: Result<(), DispatchError>,
    r2: Result<(), DispatchError>,
)
    requires
        !s0.claims().contains_key(p),
        s0.ledger_view().free_of(a) >= s0.settings().reserve_amount,
        Pallet::create_claim_outcome(s0, a, p, s1, r1),
        Pallet::create_claim_outcome(s1, b, p, s2, r2),
    ensures
        r1 == Ok::<(), DispatchError>(()),
        r2 == Err::<(), DispatchError>(DispatchError::Module(Error::ProofAlreadyClaimed)),
        s2.claims()[p] == s1.claims()[p],
        s2.claims()[p].owner == a,
{
}

/// Claiming an unclaimed proof and revoking it at once both succeed, give
/// the claimant back its balances, and leave the registry as it was; any
/// account that can pay the stake may then claim the proof.
pub proof fn lemma_revoke_frees_the_proof<L: ReservationLedger>(
    s0: Pallet<L>,
    s1: Pallet<L>,
    s2: Pallet<L>,
    s3: Pallet<L>,
    a: AccountId,
    c: AccountId,
    p: Seq<u8>,
    r1: Result<(), DispatchError>,
    r2: Result<(), DispatchError>,
    r3: Result<(), DispatchError>,
)
    requires
        !s0.claims().contains_key(p),
        s0.ledger_view().free_of(a) >= s0.settings().reserve_amount,
        s0.ledger_view().free_of(c) >= s0.settings().reserve_amount,
        Pallet::create_claim_outcome(s0, a, p, s1, r1),
        Pallet::revoke_claim_outcome(s1, a, p, s2, r2),
        Pallet::create_claim_outcome(s2, c, p, s3, r3),
    ensures
        r1 == Ok::<(), DispatchError>(()),
        r2 == Ok::<(), DispatchError>(()),
        !s2.claims().contains_key(p),
        s2.claims() == s0.claims(),
        s2.ledger_view().free_of(a) == s0.ledger_view().free_of(a),
        s2.ledger_view().reserved_of(a) == s0.ledger_view().reserved_of(a),
        r3 == Ok::<(), DispatchError>(()),
        s3.claims()[p].owner == c,
{
    assert(s2.claims() =~= s0.claims());
    if c != a {
        assert(s2.ledger_view().free_of(c) == s1.ledger_view().free_of(c));
    }
}

/// A revocation by an account other than the owner fails with
/// `NotProofOwner` and leaves the claim, owner and sequence number alike.
pub proof fn lemma_only_owner_revokes<L: ReservationLedger>(
    s0: Pallet<L>,
    s1: Pallet<L>,
    b: AccountId,
    p: Seq<u8>,
    r: Result<(), DispatchError>,
)
    requires
        s0.claims().contains_key(p),
        s0.claims()[p].owner != b,
        Pallet::revoke_claim_outcome(s0, b, p, s1, r),
    ensures
        r == Err::<(), DispatchError>(DispatchError::Module(Error::NotProofOwner)),
        s1.claims().contains_key(p),
        s1.claims()[p] == s0.claims()[p],
        s1 == s0,
{
}

/// Revoking a proof that has no claim fails with `NoSuchProof` and changes
/// nothing.
pub proof fn lemma_revoke_unclaimed_fails<L: ReservationLedger>(
    s0: Pallet<L>,
    s1: Pallet<L>,
    a: AccountId,
    p: Seq<u8>,
    r: Result<(), DispatchError>,
)
    requires
        !s0.claims().contains_key(p),
        Pallet::revoke_claim_outcome(s0, a, p, s1, r),
    ensures
        r == Err::<(), DispatchError>(DispatchError::Module(Error::NoSuchProof)),
        s1.claims() == s0.claims(),
        s1 == s0,
{
}

/// Claiming an unclaimed proof without the stake in free balance fails
/// with the ledger's error, and the registry keeps its size and contents.
pub proof fn lemma_claim_needs_stake<L: ReservationLedger>(
    s0: Pallet<L>,
    s1: Pallet<L>,
    a: AccountId,
    p: Seq<u8>,
    r: Result<(), DispatchError>,
)
    requires
        !s0.claims().contains_key(p),
        s0.ledger_view().free_of(a) < s0.settings().reserve_amount,
        Pallet::create_claim_outcome(s0, a, p, s1, r),
    ensures
        r == Err::<(), DispatchError>(DispatchError::Ledger(LedgerError::InsufficientBalance)),
        !s1.claims().contains_key(p),
        s1.claims() == s0.claims(),
        s1.claims().len() == s0.claims().len(),
        s1 == s0,
{
}

} // verus!
