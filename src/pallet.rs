//! The claim registry: who holds which proof, the two transitions that
//! change it, and the stake that backs each claim.
use vstd::prelude::*;

use crate::ledger::{moves_to_reserved, LedgerError, ReservationLedger};
use crate::proofs::Proof;
use crate::store::{Claim, ProofStore};
use crate::{AccountId, Balance, BlockNumber};

verus! {

/// The registry's settings, read at each call.
#[derive(Clone, Copy, Debug, PartialEq, Eq, Structural)]
pub struct Config {
    /// The most bytes that a proof may hold.
    pub max_proof_len: u32,
    /// The stake locked on the claimant's account for every claim.
    pub reserve_amount: Balance,
}

impl Config {
    /// Builds a proof from `bytes` when they fit within `max_proof_len`.
    pub fn bound_proof(&self, bytes: Vec<u8>) -> (r: Option<Proof>)
        ensures
            r is Some <==> bytes@.len() <= self.max_proof_len,
            r matches Some(p) ==> p@ == bytes@,
    {
        Proof::bounded(bytes, self.max_proof_len)
    }
}

/// What the registry announces after a successful transition.
#[derive(Debug)]
pub enum Event {
    /// The account claimed the proof.
    ClaimCreated(AccountId, Proof),
    /// The account gave up its claim on the proof.
    ClaimRevoked(AccountId, Proof),
}

/// An event as the contracts see it: the proof by its bytes.
pub enum EventView {
    ClaimCreated(AccountId, Seq<u8>),
    ClaimRevoked(AccountId, Seq<u8>),
}

impl View for Event {
    type V = EventView;

    open spec fn view(&self) -> EventView {
        match self {
            Event::ClaimCreated(who, p) => EventView::ClaimCreated(*who, p@),
            Event::ClaimRevoked(who, p) => EventView::ClaimRevoked(*who, p@),
        }
    }
}

/// Why the registry refused a transition.
#[derive(Clone, Copy, Debug, PartialEq, Eq, Structural)]
pub enum Error {
    /// The proof already has a claim.
    ProofAlreadyClaimed,
    /// The proof has no claim.
    NoSuchProof,
    /// The caller does not own the claim.
    NotProofOwner,
}

/// The failure of a call: the registry's own, or the ledger's, passed on
/// unchanged.
#[derive(Clone, Copy, Debug, PartialEq, Eq, Structural)]
pub enum DispatchError {
    Module(Error),
    Ledger(LedgerError),
}

/// The claim registry, with the ledger that holds the stakes.
pub struct Pallet<L: ReservationLedger> {
    config: Config,
    proofs: ProofStore,
    ledger: L,
    block_number: BlockNumber,
    events: Vec<Event>,
}

impl<L: ReservationLedger> Pallet<L> {
    /// The settings.
    pub closed spec fn settings(&self) -> Config {
        self.config
    }

    /// Each claimed proof, by its bytes, with its claim.
    pub closed spec fn claims(&self) -> Map<Seq<u8>, Claim> {
        self.proofs@
    }

    /// The ledger's state.
    pub closed spec fn ledger_view(&self) -> L {
        self.ledger
    }

    /// The sequence number that a new claim records.
    pub closed spec fn current_block(&self) -> BlockNumber {
        self.block_number
    }

    /// Every event so far, oldest first.
    pub closed spec fn event_log(&self) -> Seq<EventView> {
        self.events@.map_values(|e: Event| e@)
    }

    /// The registry and the ledger are each consistent.
    pub closed spec fn wf(&self) -> bool {
        self.proofs.wf() && self.ledger.wf()
    }

    /// What `create_claim(caller, proof)` leaves, from `pre`: `post` and the
    /// result `r`.
    pub open spec fn create_claim_outcome(
        pre: Self,
        caller: AccountId,
        proof: Seq<u8>,
        post: Self,
        r: Result<(), DispatchError>,
    ) -> bool {
        if pre.claims().contains_key(proof) {
            r == Err::<(), DispatchError>(DispatchError::Module(Error::ProofAlreadyClaimed))
                && post == pre
        } else if pre.ledger_view().free_of(caller) < pre.settings().reserve_amount {
            r == Err::<(), DispatchError>(DispatchError::Ledger(LedgerError::InsufficientBalance))
                && post == pre
        } else {
            &&& r == Ok::<(), DispatchError>(())
            &&& post.claims() == pre.claims().insert(
                proof,
                Claim { owner: caller, claimed_at: pre.current_block() },
            )
            &&& moves_to_reserved(
                pre.ledger_view(),
                post.ledger_view(),
                caller,
                pre.settings().reserve_amount as nat,
            )
            &&& post.event_log() == pre.event_log().push(EventView::ClaimCreated(caller, proof))
            &&& post.settings() == pre.settings()
            &&& post.current_block() == pre.current_block()
        }
    }

    /// What `revoke_claim(caller, proof)` leaves, from `pre`: `post` and the
    /// result `r`. The owner gets back as much of the stake as it still
    /// holds reserved, and the claim goes whatever that is.
    pub open spec fn revoke_claim_outcome(
        pre: Self,
        caller: AccountId,
        proof: Seq<u8>,
        post: Self,
        r: Result<(), DispatchError>,
    ) -> bool {
        if !pre.claims().contains_key(proof) {
            r == Err::<(), DispatchError>(DispatchError::Module(Error::NoSuchProof)) && post == pre
        } else if pre.claims()[proof].owner != caller {
            r == Err::<(), DispatchError>(DispatchError::Module(Error::NotProofOwner))
                && post == pre
        } else {
            let released = vstd::math::min(
                pre.settings().reserve_amount as int,
                pre.ledger_view().reserved_of(caller) as int,
            );
            &&& r == Ok::<(), DispatchError>(())
            &&& post.claims() == pre.claims().remove(proof)
            &&& moves_to_reserved(post.ledger_view(), pre.ledger_view(), caller, released as nat)
            &&& post.event_log() == pre.event_log().push(EventView::ClaimRevoked(caller, proof))
            &&& post.settings() == pre.settings()
            &&& post.current_block() == pre.current_block()
        }
    }

    /// A registry with no claims, at sequence number 0, over `ledger`.
    pub fn new(config: Config, ledger: L) -> (r: Pallet<L>)
        requires
            ledger.wf(),
        ensures
            r.wf(),
            r.settings() == config,
            r.claims() == Map::<Seq<u8>, Claim>::empty(),
            r.ledger_view() == ledger,
            r.current_block() == 0,
            r.event_log() == Seq::<EventView>::empty(),
    {
        let r = Pallet { config, proofs: ProofStore::new(), ledger, block_number: 0, events: Vec::new() };
        assert(r.event_log() =~= Seq::<EventView>::empty());
        r
    }

    /// Claims `proof` for `caller`, locking the configured stake on its
    /// account. Refused, with nothing changed, where the proof already has
    /// a claim or the ledger refuses the stake.
    pub fn create_claim(&mut self, caller: AccountId, proof: Proof) -> (r: Result<(), DispatchError>)
        requires
            old(self).wf(),
        ensures
            final(self).wf(),
            Self::create_claim_outcome(*old(self), caller, proof@, *final(self), r),
    {
        if self.proofs.contains_key(&proof) {
            return Err(DispatchError::Module(Error::ProofAlreadyClaimed));
        }
        match self.ledger.reserve(caller, self.config.reserve_amount) {
            Ok(()) => {},
            Err(e) => {
                return Err(DispatchError::Ledger(e));
            },
        }
        let claim = Claim { owner: caller, claimed_at: self.block_number };
        let announced = proof.copy();
        self.proofs.insert(proof, claim);
        self.events.push(Event::ClaimCreated(caller, announced));
        assert(self.event_log() =~= old(self).event_log().push(
            EventView::ClaimCreated(caller, announced@),
        ));
        Ok(())
    }

    /// Gives up `caller`'s claim on `proof`, releasing the stake. Refused,
    /// with nothing changed, where the proof has no claim or another account
    /// owns it. A shortfall of reserved balance does not stop the release.
    pub fn revoke_claim(&mut self, caller: AccountId, proof: Proof) -> (r: Result<(), DispatchError>)
        requires
            old(self).wf(),
        ensures
            final(self).wf(),
            Self::revoke_claim_outcome(*old(self), caller, proof@, *final(self), r),
    {
        let owner = match self.proofs.get(&proof) {
            Some(claim) => claim.owner,
            None => {
                return Err(DispatchError::Module(Error::NoSuchProof));
            },
        };
        if caller != owner {
            return Err(DispatchError::Module(Error::NotProofOwner));
        }
        let released = self.ledger.unreserve(caller, self.config.reserve_amount);
        self.proofs.remove(&proof);
        self.events.push(Event::ClaimRevoked(caller, proof));
        assert(self.event_log() =~= old(self).event_log().push(
            EventView::ClaimRevoked(caller, proof@),
        ));
        assert(moves_to_reserved(
            self.ledger_view(),
            old(self).ledger_view(),
            caller,
            released as nat,
        ));
        Ok(())
    }
    /// The settings.
    pub fn config(&self) -> (r: Config)
        ensures
            r == self.settings(),
    {
        self.config
    }

    /// The claim on `proof`, if there is one.
    pub fn claim_of(&self, proof: &Proof) -> (r: Option<Claim>)
        requires
            self.wf(),
        ensures
            r == (if self.claims().contains_key(proof@) {
                Some(self.claims()[proof@])
            } else {
                None::<Claim>
            }),
    {
        self.proofs.get(proof)
    }

    /// The ledger.
    pub fn ledger(&self) -> (r: &L)
        ensures
            *r == self.ledger_view(),
    {
        &self.ledger
    }

    /// The ledger, for the host's own transfers; the registry's own state
    /// stays as it is.
    pub fn ledger_mut(&mut self) -> (r: &mut L)
        ensures
            *r == old(self).ledger_view(),
            final(self).ledger_view() == *final(r),
            final(self).settings() == old(self).settings(),
            final(self).claims() == old(self).claims(),
            final(self).current_block() == old(self).current_block(),
            final(self).event_log() == old(self).event_log(),
            old(self).wf() && final(r).wf() ==> final(self).wf(),
    {
        &mut self.ledger
    }

    /// The sequence number that a new claim records.
    pub fn block_number(&self) -> (r: BlockNumber)
        ensures
            r == self.current_block(),
    {
        self.block_number
    }

    /// Moves the registry to sequence number `n`; nothing else changes.
    pub fn set_block_number(&mut self, n: BlockNumber)
        requires
            old(self).wf(),
        ensures
            final(self).wf(),
            final(self).current_block() == n,
            final(self).settings() == old(self).settings(),
            final(self).claims() == old(self).claims(),
            final(self).ledger_view() == old(self).ledger_view(),
            final(self).event_log() == old(self).event_log(),
    {
        self.block_number = n;
    }

    /// Every event so far, oldest first.
    pub fn events(&self) -> (r: &Vec<Event>)
        ensures
            r@.map_values(|e: Event| e@) == self.event_log(),
    {
        &self.events
    }
}

} // verus!
