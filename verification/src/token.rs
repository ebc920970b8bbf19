use vstd::prelude::*;

use std::collections::HashMap;

use crate::values::Address;

verus! {

/// One call observed by a token capability: a transfer between two accounts,
/// or a burn from one account.
#[derive(Clone, Copy, PartialEq, Eq, Structural, Debug)]
pub enum TransferCall {
    Transfer { from: Address, to: Address, amount: i128 },
    Burn { from: Address, amount: i128 },
}

/// The capability interface to an external token contract. The core is a
/// caller, never a provider, of this interface: a real implementation is
/// backed by the external ledger, and [`MemoryToken`] is an in-memory one.
///
/// Each call is atomic from the caller's point of view: it either fully
/// applies (and is then recorded in `log`, in call order) or fails with no
/// effect at all. Nothing here assumes that a given call succeeds — the
/// implementation decides, and may reject any call (a negative amount, an
/// insufficient balance).
pub trait TokenClient {
    /// The token contract this capability moves value on.
    ///
    /// The default stands for no token contract in particular; every
    /// implementation the library reasons about overrides it. (A host-backed
    /// implementation cannot spell ghost members, so the default lets one
    /// exist.)
    open spec fn token(&self) -> Address {
        Address { id: 0 }
    }

    /// Every call this capability has applied, in order. A failed call is
    /// never recorded: it had no effect. The default, an empty record, is
    /// overridden by every implementation the library reasons about.
    open spec fn log(&self) -> Seq<TransferCall> {
        Seq::empty()
    }

    /// The token contract's address, as a plain value.
    fn address(&self) -> (a: Address)
        ensures
            a == self.token(),
    ;

    /// Move `amount` from `from` to `to`; fully applies or has no effect.
    fn transfer(&mut self, from: Address, to: Address, amount: i128) -> (ok: bool)
        ensures
            final(self).token() == old(self).token(),
            ok ==> final(self).log() == old(self).log().push(
                TransferCall::Transfer { from, to, amount },
            ),
            !ok ==> final(self).log() == old(self).log(),
    ;

    /// Destroy `amount` held by `from`; fully applies or has no effect.
    fn burn(&mut self, from: Address, amount: i128) -> (ok: bool)
        ensures
            final(self).token() == old(self).token(),
            ok ==> final(self).log() == old(self).log().push(
                TransferCall::Burn { from, amount },
            ),
            !ok ==> final(self).log() == old(self).log(),
    ;

    /// The balance currently held by `account`.
    fn balance(&self, account: Address) -> i128;
}

/// An in-memory token ledger: balances per account, plus a record of every
/// applied call in order. It stands in for the external token contract in
/// tests, and doubles as a verified reference implementation of
/// [`TokenClient`].
pub struct MemoryToken {
    token_addr: Address,
    balances: HashMap<u64, i128>,
    calls: Vec<TransferCall>,
}

impl MemoryToken {
    /// The token contract address this ledger stands for.
    pub closed spec fn spec_token(&self) -> Address {
        self.token_addr
    }

    /// Every applied call, in order.
    pub closed spec fn spec_log(&self) -> Seq<TransferCall> {
        self.calls@
    }

    /// The balances, keyed by account identity.
    pub closed spec fn spec_balances(&self) -> Map<u64, i128> {
        self.balances@
    }

    /// The balance of `account`; an account never credited holds zero.
    pub open spec fn balance_of(&self, account: Address) -> int {
        if self.spec_balances().contains_key(account.id) {
            self.spec_balances()[account.id] as int
        } else {
            0
        }
    }

    /// When a transfer applies: the amount is non-negative, the source holds
    /// enough, and the destination's balance cannot overflow.
    pub open spec fn can_transfer(&self, from: Address, to: Address, amount: i128) -> bool {
        &&& amount >= 0
        &&& self.balance_of(from) >= amount
        &&& (from == to || self.balance_of(to) + amount <= i128::MAX)
    }

    /// When a burn applies: the amount is non-negative and the source holds
    /// enough.
    pub open spec fn can_burn(&self, from: Address, amount: i128) -> bool {
        amount >= 0 && self.balance_of(from) >= amount
    }

    /// A fresh ledger for the token contract at `token`: no balances, no
    /// recorded calls.
    pub fn new(token: Address) -> (client: MemoryToken)
        ensures
            client.spec_token() == token,
            client.spec_log() == Seq::<TransferCall>::empty(),
            client.spec_balances() == Map::<u64, i128>::empty(),
    {
        MemoryToken { token_addr: token, balances: HashMap::new(), calls: Vec::new() }
    }

    fn lookup(&self, account: Address) -> (b: i128)
        ensures
            b as int == self.balance_of(account),
    {
        match self.balances.get(&account.id) {
            Some(b) => *b,
            None => 0,
        }
    }

    /// Credit `amount` to `account` out of thin air (test setup only; the
    /// consumed capability interface has no mint).
    pub fn mint(&mut self, account: Address, amount: i128)
        requires
            0 <= amount,
            old(self).balance_of(account) + amount <= i128::MAX,
        ensures
            final(self).spec_token() == old(self).spec_token(),
            final(self).spec_log() == old(self).spec_log(),
            final(self).spec_balances() == old(self).spec_balances().insert(
                account.id,
                (old(self).balance_of(account) + amount) as i128,
            ),
    {
        let bal = self.lookup(account);
        self.balances.insert(account.id, bal + amount);
    }

    /// Apply a transfer: succeeds exactly when [`Self::can_transfer`] holds,
    /// and then moves the amount and records the call; otherwise it has no
    /// effect at all.
    pub fn apply_transfer(&mut self, from: Address, to: Address, amount: i128) -> (ok: bool)
        ensures
            ok == old(self).can_transfer(from, to, amount),
            final(self).spec_token() == old(self).spec_token(),
            ok ==> final(self).spec_log() == old(self).spec_log().push(
                TransferCall::Transfer { from, to, amount },
            ),
            !ok ==> *final(self) == *old(self),
            ok ==> final(self).spec_balances() == if from == to {
                old(self).spec_balances()
            } else {
                old(self).spec_balances().insert(
                    from.id,
                    (old(self).balance_of(from) - amount) as i128,
                ).insert(to.id, (old(self).balance_of(to) + amount) as i128)
            },
    {
        let bal_from = self.lookup(from);
        if amount < 0 || bal_from < amount {
            return false;
        }
        if from == to {
            self.calls.push(TransferCall::Transfer { from, to, amount });
            return true;
        }
        let bal_to = self.lookup(to);
        if bal_to > i128::MAX - amount {
            return false;
        }
        self.balances.insert(from.id, bal_from - amount);
        self.balances.insert(to.id, bal_to + amount);
        self.calls.push(TransferCall::Transfer { from, to, amount });
        true
    }

    /// Apply a burn: succeeds exactly when [`Self::can_burn`] holds, and then
    /// destroys the amount and records the call; otherwise it has no effect.
    pub fn apply_burn(&mut self, from: Address, amount: i128) -> (ok: bool)
        ensures
            ok == old(self).can_burn(from, amount),
            final(self).spec_token() == old(self).spec_token(),
            ok ==> final(self).spec_log() == old(self).spec_log().push(
                TransferCall::Burn { from, amount },
            ),
            !ok ==> *final(self) == *old(self),
            ok ==> final(self).spec_balances() == old(self).spec_balances().insert(
                from.id,
                (old(self).balance_of(from) - amount) as i128,
            ),
    {
        let bal_from = self.lookup(from);
        if amount < 0 || bal_from < amount {
            return false;
        }
        self.balances.insert(from.id, bal_from - amount);
        self.calls.push(TransferCall::Burn { from, amount });
        true
    }

    /// The applied calls, in order, as plain values.
    pub fn calls(&self) -> (calls: &Vec<TransferCall>)
        ensures
            calls@ == self.spec_log(),
    {
        &self.calls
    }
}

impl TokenClient for MemoryToken {
    open spec fn token(&self) -> Address {
        self.spec_token()
    }

    open spec fn log(&self) -> Seq<TransferCall> {
        self.spec_log()
    }

    fn address(&self) -> Address {
        self.token_addr
    }

    fn transfer(&mut self, from: Address, to: Address, amount: i128) -> bool {
        self.apply_transfer(from, to, amount)
    }

    fn burn(&mut self, from: Address, amount: i128) -> bool {
        self.apply_burn(from, amount)
    }

    fn balance(&self, account: Address) -> i128 {
        self.lookup(account)
    }
}

} // verus!
