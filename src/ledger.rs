//! The reservation ledger: each account's free and reserved balance, and the
//! two moves between them that the registry asks for.
use vstd::prelude::*;

use std::collections::HashMap;

use crate::{AccountId, Balance};

verus! {

/// Why a reservation was refused.
#[derive(Clone, Copy, Debug, PartialEq, Eq, Structural)]
pub enum LedgerError {
    /// The account's free balance is below the amount asked for.
    InsufficientBalance,
}

/// A ledger that can lock part of an account's free balance as reserved
/// balance, and release it again.
pub trait ReservationLedger: Sized {
    /// The ledger's internal consistency.
    spec fn wf(&self) -> bool;

    /// What `who` holds free: the most that can be reserved from it.
    spec fn free_of(&self, who: AccountId) -> nat;

    /// What `who` holds reserved.
    spec fn reserved_of(&self, who: AccountId) -> nat;

    /// Moves `amount` from the free to the reserved balance of `who`. It is
    /// refused, and nothing changes, exactly when the free balance is short.
    fn reserve(&mut self, who: AccountId, amount: Balance) -> (r: Result<(), LedgerError>)
        requires
            old(self).wf(),
        ensures
            final(self).wf(),
            r is Ok <==> amount <= old(self).free_of(who),
            r is Ok ==> final(self).free_of(who) + amount == old(self).free_of(who),
            r is Ok ==> final(self).reserved_of(who) == old(self).reserved_of(who) + amount,
            r is Ok ==> forall|a: AccountId|
                a != who ==> #[trigger] final(self).free_of(a) == old(self).free_of(a),
            r is Ok ==> forall|a: AccountId|
                a != who ==> #[trigger] final(self).reserved_of(a) == old(self).reserved_of(a),
            r is Err ==> *final(self) == *old(self),
    ;

    /// Moves `amount` from the reserved to the free balance of `who`, or all
    /// of the reserved balance where that is less. Returns the amount moved.
    fn unreserve(&mut self, who: AccountId, amount: Balance) -> (r: Balance)
        requires
            old(self).wf(),
        ensures
            final(self).wf(),
            r == vstd::math::min(amount as int, old(self).reserved_of(who) as int),
            final(self).free_of(who) == old(self).free_of(who) + r,
            final(self).reserved_of(who) + r == old(self).reserved_of(who),
            forall|a: AccountId| a != who ==> #[trigger] final(self).free_of(a) == old(self).free_of(a),
            forall|a: AccountId|
                a != who ==> #[trigger] final(self).reserved_of(a) == old(self).reserved_of(a),
    ;
}

/// `after` is `before` with `amount` moved from the free to the reserved
/// balance of `who`, and every other account as it was. Read with the two
/// states swapped, it says that `amount` went back from reserved to free.
pub open spec fn moves_to_reserved<L: ReservationLedger>(
    before: L,
    after: L,
    who: AccountId,
    amount: nat,
) -> bool {
    &&& after.free_of(who) + amount == before.free_of(who)
    &&& after.reserved_of(who) == before.reserved_of(who) + amount
    &&& forall|a: AccountId| a != who ==> #[trigger] after.free_of(a) == before.free_of(a)
    &&& forall|a: AccountId| a != who ==> #[trigger] after.reserved_of(a) == before.reserved_of(a)
}

/// The balances of one account.
#[derive(Clone, Copy, Debug, PartialEq, Eq, Structural)]
pub struct AccountData {
    pub free: Balance,
    pub reserved: Balance,
}

/// An in-memory ledger: accounts that were never credited hold nothing.
pub struct Balances {
    accounts: HashMap<AccountId, AccountData>,
}

impl Balances {
    /// The balances of `who`.
    pub closed spec fn account(&self, who: AccountId) -> AccountData {
        if self.accounts@.contains_key(who) {
            self.accounts@[who]
        } else {
            AccountData { free: 0, reserved: 0 }
        }
    }

    /// A ledger in which every account holds nothing.
    pub fn new() -> (r: Balances)
        ensures
            r.wf(),
            forall|a: AccountId| #[trigger] r.free_of(a) == 0,
            forall|a: AccountId| #[trigger] r.reserved_of(a) == 0,
    {
        Balances { accounts: HashMap::new() }
    }

    fn account_data(&self, who: AccountId) -> (r: AccountData)
        ensures
            r == self.account(who),
    {
        broadcast use vstd::std_specs::hash::group_hash_axioms;

        match self.accounts.get(&who) {
            Some(data) => *data,
            None => AccountData { free: 0, reserved: 0 },
        }
    }

    /// Sets the free balance of `who`, leaving its reserved balance alone.
    pub fn set_free_balance(&mut self, who: AccountId, free: Balance)
        requires
            old(self).wf(),
            free + old(self).reserved_of(who) <= Balance::MAX,
        ensures
            final(self).wf(),
            final(self).free_of(who) == free,
            final(self).reserved_of(who) == old(self).reserved_of(who),
            forall|a: AccountId| a != who ==> #[trigger] final(self).free_of(a) == old(self).free_of(a),
            forall|a: AccountId|
                a != who ==> #[trigger] final(self).reserved_of(a) == old(self).reserved_of(a),
    {
        broadcast use vstd::std_specs::hash::group_hash_axioms;

        let data = self.account_data(who);
        self.accounts.insert(who, AccountData { free, reserved: data.reserved });
        assert forall|a: AccountId|
            #[trigger] self.account(a).free + self.account(a).reserved <= Balance::MAX by {
            if a != who {
                assert(old(self).account(a).free + old(self).account(a).reserved <= Balance::MAX);
            }
        }
    }

    /// The free balance of `who`.
    pub fn free_balance(&self, who: AccountId) -> (r: Balance)
        ensures
            r == self.free_of(who),
    {
        self.account_data(who).free
    }

    /// The reserved balance of `who`.
    pub fn reserved_balance(&self, who: AccountId) -> (r: Balance)
        ensures
            r == self.reserved_of(who),
    {
        self.account_data(who).reserved
    }
}

impl ReservationLedger for Balances {
    /// No account holds more, free and reserved together, than a balance
    /// can count.
    closed spec fn wf(&self) -> bool {
        forall|a: AccountId|
            #[trigger] self.account(a).free + self.account(a).reserved <= Balance::MAX
    }

    closed spec fn free_of(&self, who: AccountId) -> nat {
        self.account(who).free as nat
    }

    closed spec fn reserved_of(&self, who: AccountId) -> nat {
        self.account(who).reserved as nat
    }

    fn reserve(&mut self, who: AccountId, amount: Balance) -> (r: Result<(), LedgerError>) {
        broadcast use vstd::std_specs::hash::group_hash_axioms;

        let data = self.account_data(who);
        if data.free < amount {
            return Err(LedgerError::InsufficientBalance);
        }
        assert(self.account(who).free + self.account(who).reserved <= Balance::MAX);
        self.accounts.insert(
            who,
            AccountData { free: data.free - amount, reserved: data.reserved + amount },
        );
        assert forall|a: AccountId|
            #[trigger] self.account(a).free + self.account(a).reserved <= Balance::MAX by {
            if a != who {
                assert(old(self).account(a).free + old(self).account(a).reserved <= Balance::MAX);
            }
        }
        Ok(())
    }

    fn unreserve(&mut self, who: AccountId, amount: Balance) -> (r: Balance) {
        broadcast use vstd::std_specs::hash::group_hash_axioms;

        let data = self.account_data(who);
        let moved = if amount < data.reserved {
            amount
        } else {
            data.reserved
        };
        assert(self.account(who).free + self.account(who).reserved <= Balance::MAX);
        self.accounts.insert(
            who,
            AccountData { free: data.free + moved, reserved: data.reserved - moved },
        );
        assert forall|a: AccountId|
            #[trigger] self.account(a).free + self.account(a).reserved <= Balance::MAX by {
            if a != who {
                assert(old(self).account(a).free + old(self).account(a).reserved <= Balance::MAX);
            }
        }
        moved
    }
}

} // verus!
