//! The balance ledger: a map from account identity to balance, with funded,
//! checked transfers.

use vstd::prelude::*;

use crate::errors::ErrorKind;
use crate::store::StrMap;

verus! {

/// The balance an account holds under a balance map: the stored value, or
/// zero where no entry was ever written. Reads never create entries.
pub open spec fn balance_of(m: Map<Seq<char>, u128>, who: Seq<char>) -> u128 {
    if m.contains_key(who) {
        m[who]
    } else {
        0
    }
}

/// The transfer transition on a balance map: the result of
/// `transfer(from, to, amount)` together with the map after the call.
///
/// Both balances are read up front; the two checks run before any write; on
/// success the source balance is written first and the destination balance is
/// recomputed from the map holding that first write, so that a self-transfer
/// leaves the balance unchanged.
pub open spec fn spec_transfer(
    m: Map<Seq<char>, u128>,
    from: Seq<char>,
    to: Seq<char>,
    amount: u128,
) -> (Result<(), ErrorKind>, Map<Seq<char>, u128>) {
    let from_balance = balance_of(m, from);
    let to_balance = balance_of(m, to);
    if amount > from_balance {
        (Err(ErrorKind::InsufficientFunds), m)
    } else if to_balance + amount > u128::MAX {
        (Err(ErrorKind::Overflow), m)
    } else {
        let written = m.insert(from, (from_balance - amount) as u128);
        (Ok(()), written.insert(to, (balance_of(written, to) + amount) as u128))
    }
}

/// The calls the balances module exposes to dispatch.
pub enum BalancesCall {
    /// Move `amount` from the caller to `to`.
    Transfer { to: String, amount: u128 },
}

/// The dispatch transition of the balances module: routes a call to the
/// mutating method that implements it.
pub open spec fn spec_balances_dispatch(
    m: Map<Seq<char>, u128>,
    caller: Seq<char>,
    call: BalancesCall,
) -> (Result<(), ErrorKind>, Map<Seq<char>, u128>) {
    match call {
        BalancesCall::Transfer { to, amount } => spec_transfer(m, caller, to@, amount),
    }
}

/// The balances module: tracks how much balance each account has.
pub struct BalancesModule {
    balances: StrMap<u128>,
}

impl View for BalancesModule {
    type V = Map<Seq<char>, u128>;

    closed spec fn view(&self) -> Map<Seq<char>, u128> {
        self.balances@
    }
}

impl BalancesModule {
    /// The module's internal invariant.
    pub closed spec fn wf(&self) -> bool {
        self.balances.wf()
    }

    /// Creates the module with no balance entries.
    pub fn new() -> (m: Self)
        ensures
            m.wf(),
            m@ == Map::<Seq<char>, u128>::empty(),
    {
        BalancesModule { balances: StrMap::new() }
    }

    /// Unconditionally overwrites the stored balance. A genesis escape hatch:
    /// it bypasses dispatch and nonce bookkeeping.
    pub fn set_balance(&mut self, who: String, amount: u128)
        requires
            old(self).wf(),
        ensures
            final(self).wf(),
            final(self)@ == old(self)@.insert(who@, amount),
    {
        self.balances.set(who, amount);
    }

    /// Reads an account's balance, zero for accounts never written to.
    pub fn balance(&self, who: &String) -> (r: u128)
        requires
            self.wf(),
        ensures
            r == balance_of(self@, who@),
    {
        match self.balances.get(who) {
            Some(v) => *v,
            None => 0,
        }
    }

    /// Moves `amount` from `from` to `to`.
    ///
    /// Fails with `InsufficientFunds` when the source balance would go
    /// negative and with `Overflow` when the destination balance would
    /// exceed `u128::MAX`; on failure nothing is written.
    pub fn transfer(&mut self, from: &String, to: &String, amount: u128) -> (r: Result<
        (),
        ErrorKind,
    >)
        requires
            old(self).wf(),
        ensures
            final(self).wf(),
            (r, final(self)@) == spec_transfer(old(self)@, from@, to@, amount),
    {
        let from_balance = self.balance(from);
        let to_balance = self.balance(to);
        let new_from_balance = match from_balance.checked_sub(amount) {
            Some(v) => v,
            None => {
                return Err(ErrorKind::InsufficientFunds);
            },
        };
        if to_balance.checked_add(amount).is_none() {
            return Err(ErrorKind::Overflow);
        }
        self.balances.set(from.clone(), new_from_balance);
        let to_balance_now = self.balance(to);
        self.balances.set(to.clone(), to_balance_now + amount);
        Ok(())
    }

    /// Routes a balances call to the method that implements it.
    pub fn dispatch(&mut self, caller: &String, call: BalancesCall) -> (r: Result<(), ErrorKind>)
        requires
            old(self).wf(),
        ensures
            final(self).wf(),
            (r, final(self)@) == spec_balances_dispatch(old(self)@, caller@, call),
    {
        match call {
            BalancesCall::Transfer { to, amount } => self.transfer(caller, &to, amount),
        }
    }
}

/// Transfer conservation: a successful transfer between two distinct
/// accounts leaves the sum of their balances unchanged, and a successful
/// self-transfer leaves the balance itself unchanged.
pub proof fn lemma_transfer_conservation(
    m: Map<Seq<char>, u128>,
    from: Seq<char>,
    to: Seq<char>,
    amount: u128,
)
    requires
        spec_transfer(m, from, to, amount).0 is Ok,
    ensures
        from != to ==> balance_of(spec_transfer(m, from, to, amount).1, from) + balance_of(
            spec_transfer(m, from, to, amount).1,
            to,
        ) == balance_of(m, from) + balance_of(m, to),
        from == to ==> balance_of(spec_transfer(m, from, to, amount).1, from) == balance_of(
            m,
            from,
        ),
{
}

/// Transfer failure atomicity: a failed transfer leaves the whole balance
/// map, and with it both accounts' balances, exactly as it was.
pub proof fn lemma_transfer_failure_atomic(
    m: Map<Seq<char>, u128>,
    from: Seq<char>,
    to: Seq<char>,
    amount: u128,
)
    requires
        spec_transfer(m, from, to, amount).0 is Err,
    ensures
        spec_transfer(m, from, to, amount).1 == m,
{
}

/// Insufficient funds: a transfer of more than the source balance fails with
/// exactly `InsufficientFunds` and changes nothing.
pub proof fn lemma_transfer_insufficient_funds(
    m: Map<Seq<char>, u128>,
    from: Seq<char>,
    to: Seq<char>,
    amount: u128,
)
    requires
        amount > balance_of(m, from),
    ensures
        spec_transfer(m, from, to, amount).0 == Result::<(), ErrorKind>::Err(
            ErrorKind::InsufficientFunds,
        ),
        spec_transfer(m, from, to, amount).1 == m,
{
}

/// Writing a balance fixes exactly that account's balance, whatever was
/// stored before.
pub proof fn lemma_set_balance_then_balance(m: Map<Seq<char>, u128>, who: Seq<char>, amount: u128)
    ensures
        balance_of(m.insert(who, amount), who) == amount,
{
}

} // verus!
