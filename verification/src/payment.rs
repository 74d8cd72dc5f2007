use vstd::prelude::*;
use crate::Principal;
use crate::auth::Authorizations;
use crate::errors::Error;
use crate::ledger::{Ledger, spec_transfer, wf_balances};

verus! {

/// The service-fee rule: one part in ten thousand of the stated amount
/// (a 0.01% rate), rounded down. Amounts below ten thousand carry no fee.
pub open spec fn fee_of(amount: int) -> int {
    amount / 10000
}

/// What one `pay` call does to the balances `m`: the new balances, or the
/// reason the call aborts with every balance untouched.
///
/// The fee is charged on top of the stated amount: the destination receives
/// exactly `amount`, the source parts with `amount` plus the fee, and the fee
/// accrues to the contract's own custodial account. A movement that the
/// asset-transfer service would refuse aborts the whole call.
pub open spec fn spec_pay(
    m: Map<Principal, int>,
    contract: Principal,
    from: Principal,
    to: Principal,
    amount: int,
    granted: Seq<Principal>,
) -> Result<Map<Principal, int>, Error> {
    if !granted.contains(from) {
        Err(Error::Unauthorized)
    } else if amount <= 0 {
        Err(Error::InvalidAmount)
    } else {
        let fee = fee_of(amount);
        let after_fee: Result<Map<Principal, int>, Error> = if fee > 0 {
            spec_transfer(m, from, contract, fee)
        } else {
            Ok(m)
        };
        match after_fee {
            Ok(m1) => spec_transfer(m1, from, to, amount),
            Err(e) => Err(e),
        }
    }
}

/// What one `withdraw_fees` call does to the balances `m`: the accumulated
/// custodial balance moves in full to `to`, a zero balance is a successful
/// no-op, and a missing or non-authorizing admin aborts the call.
pub open spec fn spec_withdraw(
    m: Map<Principal, int>,
    contract: Principal,
    admin: Option<Principal>,
    to: Principal,
    granted: Seq<Principal>,
) -> Result<Map<Principal, int>, Error> {
    match admin {
        None => Err(Error::Uninitialized),
        Some(a) => if !granted.contains(a) {
            Err(Error::Unauthorized)
        } else if m[contract] > 0 {
            spec_transfer(m, contract, to, m[contract])
        } else {
            Ok(m)
        },
    }
}

/// What one `initialize` call does to the stored administrator record: the
/// record is written iff it was absent; an existing record is never touched,
/// whatever admin the call supplies.
pub open spec fn spec_initialize(admin: Option<Principal>, new_admin: Principal) -> Result<
    Option<Principal>,
    Error,
> {
    match admin {
        Some(_) => Err(Error::AlreadyInitialized),
        None => Ok(Some(new_admin)),
    }
}

/// Validates a payment amount and computes the service fee charged on top of
/// it. Zero and negative amounts are refused regardless of anything else.
pub fn payment_fee(amount: i128) -> (r: Result<i128, Error>)
    ensures
        amount <= 0 ==> r == Err::<i128, Error>(Error::InvalidAmount),
        amount > 0 ==> (r matches Ok(f) && f as int == fee_of(amount as int)),
{
    if amount <= 0 {
        Err(Error::InvalidAmount)
    } else {
        Ok(amount / 10000)
    }
}

/// The sweep rule of fee withdrawal: a positive custodial balance is
/// withdrawn in full, never partially; an empty balance yields no transfer.
pub fn withdrawal_amount(balance: i128) -> (r: Option<i128>)
    ensures
        balance > 0 ==> r == Some(balance),
        balance <= 0 ==> r is None,
{
    if balance > 0 {
        Some(balance)
    } else {
        None
    }
}

/// Law: a successful payment among three pairwise distinct parties moves
/// exactly the stated amount to the destination, takes the stated amount plus
/// the fee from the source, credits exactly the fee to the contract's own
/// account, and touches nobody else's balance.
pub proof fn lemma_pay_effects(
    m: Map<Principal, int>,
    contract: Principal,
    from: Principal,
    to: Principal,
    amount: int,
    granted: Seq<Principal>,
)
    requires
        from != to,
        from != contract,
        to != contract,
        spec_pay(m, contract, from, to, amount, granted) is Ok,
    ensures
        amount > 0,
        spec_pay(m, contract, from, to, amount, granted) matches Ok(m2) && {
            &&& m2[from] == m[from] - amount - fee_of(amount)
            &&& m2[to] == m[to] + amount
            &&& m2[contract] == m[contract] + fee_of(amount)
            &&& forall|p: Principal| p != from && p != to && p != contract ==> m2[p] == m[p]
        },
{
}

/// Law: a payment below the fee threshold of ten thousand units carries no
/// fee, and its whole effect is the one transfer of the stated amount.
pub proof fn lemma_small_payment_has_no_fee(
    m: Map<Principal, int>,
    contract: Principal,
    from: Principal,
    to: Principal,
    amount: int,
    granted: Seq<Principal>,
)
    requires
        0 < amount < 10000,
        granted.contains(from),
    ensures
        fee_of(amount) == 0,
        spec_pay(m, contract, from, to, amount, granted) == spec_transfer(m, from, to, amount),
{
    vstd::arithmetic::div_mod::lemma_basic_div(amount, 10000);
}

/// Law: setup is one-shot. On a fresh instance `initialize` succeeds and
/// writes the supplied admin; after that, every further `initialize` fails
/// with `AlreadyInitialized` — whether it supplies the same admin or another —
/// and the record keeps the value the first call wrote.
pub proof fn lemma_initialize_is_one_shot(first_admin: Principal, second_admin: Principal)
    ensures
        spec_initialize(None, first_admin) == Ok::<Option<Principal>, Error>(Some(first_admin)),
        forall|stored: Principal| #[trigger] spec_initialize(Some(stored), second_admin) == Err::<
            Option<Principal>,
            Error,
        >(Error::AlreadyInitialized),
{
}

/// Law: a successful withdrawal to a party other than the contract itself
/// leaves the custodial account empty and credits the destination with the
/// whole balance the account held, touching nobody else.
pub proof fn lemma_withdraw_sweeps(
    m: Map<Principal, int>,
    contract: Principal,
    admin: Principal,
    to: Principal,
    granted: Seq<Principal>,
)
    requires
        to != contract,
        wf_balances(m),
        spec_withdraw(m, contract, Some(admin), to, granted) is Ok,
    ensures
        spec_withdraw(m, contract, Some(admin), to, granted) matches Ok(m2) && {
            &&& m2[contract] == 0
            &&& m2[to] == m[to] + m[contract]
            &&& forall|p: Principal| p != contract && p != to ==> m2[p] == m[p]
        },
{
}

/// One deployed instance of the payment service: its own principal (the
/// custodial account that fees accrue to) and the administrator record,
/// absent until the one-time setup and immutable afterwards.
pub struct PaymentContract {
    contract_id: Principal,
    admin: Option<Principal>,
}

impl PaymentContract {
    /// The principal the instance itself acts as; fees accrue to its account.
    pub closed spec fn spec_contract_id(&self) -> Principal {
        self.contract_id
    }

    /// The stored administrator record, if setup has run.
    pub closed spec fn spec_admin(&self) -> Option<Principal> {
        self.admin
    }

    /// A freshly deployed instance: no administrator is registered yet.
    pub fn new(contract_id: Principal) -> (r: PaymentContract)
        ensures
            r.spec_contract_id() == contract_id,
            r.spec_admin() is None,
    {
        PaymentContract { contract_id, admin: None }
    }

    /// Registers `admin` as the administrator, once per instance. A second
    /// call fails whatever admin it supplies, and changes nothing.
    pub fn initialize(&mut self, admin: Principal) -> (r: Result<(), Error>)
        ensures
            final(self).spec_contract_id() == old(self).spec_contract_id(),
            match spec_initialize(old(self).spec_admin(), admin) {
                Ok(a) => r is Ok && final(self).spec_admin() == a,
                Err(e) => r == Err::<(), Error>(e) && *final(self) == *old(self),
            },
    {
        match self.admin {
            Some(_) => Err(Error::AlreadyInitialized),
            None => {
                self.admin = Some(admin);
                Ok(())
            },
        }
    }

    /// The registered administrator, or `Uninitialized` before setup.
    pub fn get_admin(&self) -> (r: Result<Principal, Error>)
        ensures
            match self.spec_admin() {
                Some(a) => r == Ok::<Principal, Error>(a),
                None => r == Err::<Principal, Error>(Error::Uninitialized),
            },
    {
        match self.admin {
            Some(a) => Ok(a),
            None => Err(Error::Uninitialized),
        }
    }

    /// Transfers `amount` from `from` to `to` and the service fee from `from`
    /// to the instance's own account, all atomically: on any failure every
    /// balance stays as it was and the reason is reported.
    ///
    /// Requires no administrator: payments work on an instance that was never
    /// initialized.
    pub fn pay(
        &self,
        token: &mut Ledger,
        from: Principal,
        to: Principal,
        amount: i128,
        auths: &Authorizations,
    ) -> (r: Result<(), Error>)
        requires
            old(token).wf(),
        ensures
            final(token).wf(),
            match spec_pay(old(token)@, self.spec_contract_id(), from, to, amount as int, auths@) {
                Ok(m2) => r is Ok && final(token)@ == m2,
                Err(e) => r == Err::<(), Error>(e) && forall|p: Principal|
                    final(token)@[p] == old(token)@[p],
            },
    {
        if !auths.allows(from) {
            return Err(Error::Unauthorized);
        }
        let fee: i128 = match payment_fee(amount) {
            Ok(f) => f,
            Err(e) => {
                return Err(e);
            },
        };
        if fee > 0 {
            match token.transfer(from, self.contract_id, fee) {
                Ok(()) => {},
                Err(e) => {
                    return Err(e);
                },
            }
        }
        match token.transfer(from, to, amount) {
            Ok(()) => Ok(()),
            Err(e) => {
                if fee > 0 {
                    // The second movement was refused: give the collected fee
                    // back, so that the call as a whole has no effect. The
                    // refund cannot fail: the custodial account verifiably
                    // holds the fee it was just credited.
                    let refund = token.transfer(self.contract_id, from, fee);
                    proof {
                        assert(refund is Ok);
                    }
                }
                Err(e)
            },
        }
    }

    /// Sweeps the instance's whole custodial balance to `to`, on the stored
    /// administrator's authority. A zero balance succeeds with no transfer.
    pub fn withdraw_fees(&self, token: &mut Ledger, to: Principal, auths: &Authorizations) -> (r:
        Result<(), Error>)
        requires
            old(token).wf(),
        ensures
            final(token).wf(),
            match spec_withdraw(
                old(token)@,
                self.spec_contract_id(),
                self.spec_admin(),
                to,
                auths@,
            ) {
                Ok(m2) => r is Ok && final(token)@ == m2,
                Err(e) => r == Err::<(), Error>(e) && forall|p: Principal|
                    final(token)@[p] == old(token)@[p],
            },
    {
        let admin: Principal = match self.admin {
            Some(a) => a,
            None => {
                return Err(Error::Uninitialized);
            },
        };
        if !auths.allows(admin) {
            return Err(Error::Unauthorized);
        }
        let balance: i128 = match withdrawal_amount(token.balance_of(self.contract_id)) {
            Some(b) => b,
            None => {
                return Ok(());
            },
        };
        match token.transfer(self.contract_id, to, balance) {
            Ok(()) => Ok(()),
            Err(e) => Err(e),
        }
    }
}

} // verus!

