//! The ledger of native-token balances that the fee filter debits.

use vstd::prelude::*;
use crate::dispatch::{
    saturating_add, spec_saturating_add, AccountId, Balance, BalancesError, DispatchError,
};
use std::collections::HashMap;

verus! {

/// The free balance of every account. An account that was never credited
/// holds nothing.
pub struct Balances {
    accounts: HashMap<AccountId, Balance>,
}

impl View for Balances {
    type V = Map<AccountId, Balance>;

    /// The free balance of each account, zero for an account that holds nothing.
    closed spec fn view(&self) -> Map<AccountId, Balance> {
        Map::new(
            |who: AccountId| true,
            |who: AccountId|
                if self.accounts@.contains_key(who) {
                    self.accounts@[who]
                } else {
                    0
                },
        )
    }
}

impl Balances {
    /// A ledger in which no account holds anything.
    pub fn new() -> (r: Self)
        ensures
            r@ == Map::new(|who: AccountId| true, |who: AccountId| 0u64),
    {
        let r = Balances { accounts: HashMap::new() };
        assert(r@ =~= Map::new(|who: AccountId| true, |who: AccountId| 0u64));
        r
    }

    /// What `who` holds.
    pub fn free_balance(&self, who: AccountId) -> (r: Balance)
        ensures
            r == self@[who],
    {
        match self.accounts.get(&who) {
            Some(amount) => *amount,
            None => 0,
        }
    }

    /// Sets what `who` holds to `amount`.
    pub fn make_free_balance_be(&mut self, who: AccountId, amount: Balance)
        ensures
            final(self)@ == old(self)@.insert(who, amount),
    {
        self.accounts.insert(who, amount);
        assert(self@ =~= old(self)@.insert(who, amount));
    }

    /// Credits `amount` to `who`; the balance is capped at `u64::MAX`.
    pub fn deposit_creating(&mut self, who: AccountId, amount: Balance)
        ensures
            final(self)@ == old(self)@.insert(who, spec_saturating_add(old(self)@[who], amount)),
    {
        let held = self.free_balance(who);
        self.make_free_balance_be(who, saturating_add(held, amount));
    }

    /// Debits `amount` from `who`. Where `who` holds less than `amount`, the
    /// debit is refused and nothing changes.
    pub fn withdraw(&mut self, who: AccountId, amount: Balance) -> (r: Result<(), DispatchError>)
        ensures
            old(self)@[who] >= amount ==> r == Ok::<(), DispatchError>(()) && final(self)@ == old(
                self,
            )@.insert(who, (old(self)@[who] - amount) as u64),
            old(self)@[who] < amount ==> r == Err::<(), DispatchError>(
                DispatchError::Balances(BalancesError::InsufficientBalance),
            ) && final(self)@ == old(self)@,
    {
        let held = self.free_balance(who);
        if held < amount {
            return Err(DispatchError::Balances(BalancesError::InsufficientBalance));
        }
        self.make_free_balance_be(who, held - amount);
        Ok(())
    }
}

} // verus!
