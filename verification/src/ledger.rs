use vstd::prelude::*;
use std::collections::HashMap;
use crate::Principal;
use crate::errors::Error;

verus! {

broadcast use vstd::std_specs::hash::group_hash_axioms;

/// Every balance is a nonnegative amount within the asset's 128-bit range.
pub open spec fn wf_balances(m: Map<Principal, int>) -> bool {
    forall|p: Principal| 0 <= #[trigger] m[p] <= i128::MAX
}

/// The balances after moving `amount` from `from` to `to`, with no feasibility
/// question asked. Moving an amount to oneself changes nothing.
pub open spec fn apply_transfer(
    m: Map<Principal, int>,
    from: Principal,
    to: Principal,
    amount: int,
) -> Map<Principal, int> {
    let debited = m.insert(from, m[from] - amount);
    debited.insert(to, debited[to] + amount)
}

/// What the asset-transfer service does with one requested movement: the new
/// balances, or the reason the whole call must be aborted.
pub open spec fn spec_transfer(
    m: Map<Principal, int>,
    from: Principal,
    to: Principal,
    amount: int,
) -> Result<Map<Principal, int>, Error> {
    if amount < 0 {
        Err(Error::InvalidAmount)
    } else if m[from] < amount {
        Err(Error::InsufficientBalance)
    } else if from != to && m[to] + amount > i128::MAX {
        Err(Error::BalanceOverflow)
    } else {
        Ok(apply_transfer(m, from, to, amount))
    }
}

/// The balances after minting `amount` fresh units to `to`, or the reason the
/// request is refused.
pub open spec fn spec_mint(m: Map<Principal, int>, to: Principal, amount: int) -> Result<
    Map<Principal, int>,
    Error,
> {
    if amount < 0 {
        Err(Error::InvalidAmount)
    } else if m[to] + amount > i128::MAX {
        Err(Error::BalanceOverflow)
    } else {
        Ok(m.insert(to, m[to] + amount))
    }
}

/// The balance book of one fungible asset: the model of the external
/// asset-transfer service that the payment core drives.
///
/// Viewed as a total map from principals to balances; a principal the book
/// has never seen holds zero. Movements are atomic: a refused movement leaves
/// every balance as it was.
pub struct Ledger {
    accounts: HashMap<Principal, i128>,
}

impl View for Ledger {
    type V = Map<Principal, int>;

    closed spec fn view(&self) -> Map<Principal, int> {
        Map::new(
            |p: Principal| true,
            |p: Principal|
                if self.accounts@.contains_key(p) {
                    self.accounts@[p] as int
                } else {
                    0
                },
        )
    }
}

impl Ledger {
    /// Well-formedness: no account is overdrawn and none exceeds the range.
    pub open spec fn wf(&self) -> bool {
        wf_balances(self@)
    }

    /// An asset book in which every principal holds zero.
    pub fn new() -> (r: Ledger)
        ensures
            r.wf(),
            forall|p: Principal| r@[p] == 0,
    {
        Ledger { accounts: HashMap::new() }
    }

    /// The balance `who` currently holds.
    pub fn balance_of(&self, who: Principal) -> (r: i128)
        ensures
            r as int == self@[who],
    {
        match self.accounts.get(&who) {
            Some(v) => *v,
            None => 0,
        }
    }

    /// Creates `amount` fresh units on `to`'s account, as the asset's issuer
    /// would.
    pub fn mint(&mut self, to: Principal, amount: i128) -> (r: Result<(), Error>)
        requires
            old(self).wf(),
        ensures
            final(self).wf(),
            match spec_mint(old(self)@, to, amount as int) {
                Ok(m2) => r is Ok && final(self)@ == m2,
                Err(e) => r == Err::<(), Error>(e) && forall|p: Principal|
                    final(self)@[p] == old(self)@[p],
            },
    {
        if amount < 0 {
            return Err(Error::InvalidAmount);
        }
        let to_bal = self.balance_of(to);
        if to_bal > i128::MAX - amount {
            return Err(Error::BalanceOverflow);
        }
        self.accounts.insert(to, to_bal + amount);
        proof {
            assert(self@ =~= old(self)@.insert(to, old(self)@[to] + amount as int));
        }
        Ok(())
    }

    /// Moves `amount` from `from` to `to` atomically: either both the debit
    /// and the credit happen, or neither does and the reason is reported.
    pub fn transfer(&mut self, from: Principal, to: Principal, amount: i128) -> (r: Result<
        (),
        Error,
    >)
        requires
            old(self).wf(),
        ensures
            final(self).wf(),
            match spec_transfer(old(self)@, from, to, amount as int) {
                Ok(m2) => r is Ok && final(self)@ == m2,
                Err(e) => r == Err::<(), Error>(e) && forall|p: Principal|
                    final(self)@[p] == old(self)@[p],
            },
    {
        if amount < 0 {
            return Err(Error::InvalidAmount);
        }
        let from_bal = self.balance_of(from);
        if from_bal < amount {
            return Err(Error::InsufficientBalance);
        }
        if from == to {
            proof {
                assert(self@ =~= apply_transfer(old(self)@, from, to, amount as int));
            }
            return Ok(());
        }
        let to_bal = self.balance_of(to);
        if to_bal > i128::MAX - amount {
            return Err(Error::BalanceOverflow);
        }
        self.accounts.insert(from, from_bal - amount);
        self.accounts.insert(to, to_bal + amount);
        proof {
            assert(self@ =~= apply_transfer(old(self)@, from, to, amount as int));
        }
        Ok(())
    }
}

} // verus!
