//! A registry of exclusive claims on opaque byte strings ("proofs"), each
//! backed by a fixed stake that a reservation ledger locks for the lifetime
//! of the claim.
use vstd::prelude::*;

pub mod ledger;
pub mod lifecycle;
pub mod pallet;
pub mod proofs;
pub mod store;

pub use ledger::{Balances, LedgerError, ReservationLedger};
pub use pallet::{Config, DispatchError, Error, Event, EventView, Pallet};
pub use proofs::Proof;
pub use store::Claim;

verus! {

/// Identifies an account of the ledger.
pub type AccountId = u64;

/// An amount of the ledger's balance unit.
pub type Balance = u64;

/// The host's sequence number (block height).
pub type BlockNumber = u64;

} // verus!
