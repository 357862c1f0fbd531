//! The balance-transfer collaborator.
//!
//! The registry never holds balances itself: it checks and moves funds
//! through this interface, which the surrounding system implements (in the
//! original deployment, an account/balance subsystem). The contract of
//! `transfer_keep_alive` deliberately promises nothing about *when* a
//! transfer succeeds — a keep-alive ledger may refuse one for reasons of its
//! own — only what holds of the balances in either outcome.

use vstd::prelude::*;

use crate::types::AccountId;
use crate::types::LedgerError;

verus! {

/// An external ledger: a total balance per account, a balance query, and a
/// keep-alive transfer.
pub trait Ledger: Sized {
    /// The balance the ledger holds for `account`.
    spec fn bal(&self, account: AccountId) -> u64;

    /// Reads the balance of `account`.
    fn balance_of(&self, account: AccountId) -> (r: u64)
        ensures
            r == self.bal(account),
    ;

    /// Moves `amount` from `from` to `to`, leaving `from` viable. May fail
    /// for any reason of the ledger's own; on failure nothing moves.
    fn transfer_keep_alive(&mut self, from: AccountId, to: AccountId, amount: u64) -> (r: Result<
        (),
        LedgerError,
    >)
        ensures
            r is Ok && from != to ==> ({
                &&& old(self).bal(from) >= amount
                &&& old(self).bal(to) + amount <= u64::MAX
                &&& final(self).bal(from) == old(self).bal(from) - amount
                &&& final(self).bal(to) == old(self).bal(to) + amount
                &&& forall|a: AccountId|
                    a != from && a != to ==> final(self).bal(a) == old(self).bal(a)
            }),
            r is Ok && from == to ==> old(self).bal(from) >= amount && (forall|a: AccountId|
                final(self).bal(a) == old(self).bal(a)),
            r is Err ==> (forall|a: AccountId| final(self).bal(a) == old(self).bal(a)),
    ;
}

/// A minimal in-memory ledger: one map from account to balance. It refuses a
/// transfer only when funds are missing or the recipient's balance would
/// overflow.
pub struct InMemoryLedger {
    pub balances: std::collections::HashMap<AccountId, u64>,
}

impl InMemoryLedger {
    /// The balance of `account`: the map's entry, or zero where none is.
    pub open spec fn spec_balance(&self, account: AccountId) -> u64 {
        if self.balances@.contains_key(account) {
            self.balances@[account]
        } else {
            0
        }
    }

    /// An empty ledger: every account holds zero.
    pub fn new() -> (r: InMemoryLedger)
        ensures
            forall|a: AccountId| r.spec_balance(a) == 0,
    {
        InMemoryLedger { balances: std::collections::HashMap::new() }
    }

    /// Sets the balance of `account` to `amount`, leaving every other
    /// account untouched.
    pub fn set_balance(&mut self, account: AccountId, amount: u64)
        ensures
            final(self).spec_balance(account) == amount,
            forall|a: AccountId|
                a != account ==> final(self).spec_balance(a) == old(self).spec_balance(a),
    {
        self.balances.insert(account, amount);
    }
}

impl Ledger for InMemoryLedger {
    open spec fn bal(&self, account: AccountId) -> u64 {
        self.spec_balance(account)
    }

    fn balance_of(&self, account: AccountId) -> (r: u64) {
        match self.balances.get(&account) {
            Some(b) => *b,
            None => 0,
        }
    }

    fn transfer_keep_alive(&mut self, from: AccountId, to: AccountId, amount: u64) -> (r: Result<
        (),
        LedgerError,
    >) {
        let from_balance = match self.balances.get(&from) {
            Some(b) => *b,
            None => 0,
        };
        if from_balance < amount {
            return Err(LedgerError { code: 1 });
        }
        if from == to {
            return Ok(());
        }
        let to_balance = match self.balances.get(&to) {
            Some(b) => *b,
            None => 0,
        };
        if to_balance > u64::MAX - amount {
            return Err(LedgerError { code: 2 });
        }
        self.balances.insert(from, from_balance - amount);
        self.balances.insert(to, to_balance + amount);
        Ok(())
    }
}

} // verus!
