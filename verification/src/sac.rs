use vstd::prelude::*;

use crate::errors::Error;
use crate::store::DurabilityClass;
use crate::store::StoreView;
use crate::store::TieredStore;
use crate::token::TokenClient;
use crate::token::TransferCall;
use crate::values::Address;
use crate::values::Value;

verus! {

/// The keys this contract stores under.
#[derive(Clone, Copy, PartialEq, Eq, Structural, Debug)]
pub enum DataKey {
    /// The address of the token contract this contract operates on.
    Token,
}

impl DataKey {
    /// The slot a key addresses.
    pub open spec fn spec_id(self) -> u64 {
        match self {
            DataKey::Token => 0,
        }
    }

    /// The slot a key addresses, as a plain value.
    pub fn id(self) -> (slot: u64)
        ensures
            slot == self.spec_id(),
    {
        match self {
            DataKey::Token => 0,
        }
    }
}

/// What the token slot of a store yields: the configured token address,
/// `Uninitialized` while the one-time `init` has not run, or `TypeMismatch`
/// for a value of another shape.
pub open spec fn token_result(v: StoreView) -> Result<Address, Error> {
    match v.get_at(DurabilityClass::Persistent, DataKey::Token.spec_id()) {
        Some(Value::Addr(a)) => Ok(a),
        Some(_) => Err(Error::TypeMismatch),
        None => Err(Error::Uninitialized),
    }
}

/// Whether `init` has run on this store.
pub open spec fn is_initialized(v: StoreView) -> bool {
    v.get_at(DurabilityClass::Persistent, DataKey::Token.spec_id()) is Some
}

/// A contract that holds its own balance on a configured token contract and
/// moves or burns it on request.
pub struct SACTest;

impl SACTest {
    /// One-time initialization: record the token contract this instance
    /// operates on. Running it a second time fails with `AlreadyInitialized`
    /// and changes nothing.
    pub fn init(store: &mut TieredStore, contract: Address) -> (r: Result<(), Error>)
        ensures
            match r {
                Ok(()) => {
                    &&& !is_initialized(old(store)@)
                    &&& final(store)@ == old(store)@.set_at(
                        DurabilityClass::Persistent,
                        DataKey::Token.spec_id(),
                        Value::Addr(contract),
                    )
                    &&& token_result(final(store)@) == Ok::<Address, Error>(contract)
                },
                Err(Error::AlreadyInitialized) => {
                    &&& is_initialized(old(store)@)
                    &&& final(store)@ == old(store)@
                },
                Err(_) => false,
            },
            r is Ok <==> !is_initialized(old(store)@),
    {
        let key = DataKey::Token.id();
        if store.has(DurabilityClass::Persistent, key) {
            return Err(Error::AlreadyInitialized);
        }
        store.set(DurabilityClass::Persistent, key, Value::Addr(contract));
        Ok(())
    }

    /// The token contract this instance was initialized with;
    /// `Uninitialized` before `init` has run.
    pub fn get_token(store: &TieredStore) -> (r: Result<Address, Error>)
        ensures
            r == token_result(store@),
    {
        match store.get_address(DurabilityClass::Persistent, DataKey::Token.id()) {
            Ok(a) => Ok(a),
            Err(Error::NotFound) => Err(Error::Uninitialized),
            Err(e) => Err(e),
        }
    }

    /// Burn `amount` out of this contract's own balance (`current` is the
    /// contract's own address). Fails before any effect when `init` has not
    /// run; fails with `TransferFailed` at index 0, with no effect, when the
    /// token contract rejects the burn.
    pub fn burn_self<C: TokenClient>(
        store: &TieredStore,
        client: &mut C,
        current: Address,
        amount: i128,
    ) -> (r: Result<(), Error>)
        requires
            token_result(store@) matches Ok(a) ==> a == old(client).token(),
        ensures
            final(client).token() == old(client).token(),
            match r {
                Ok(()) => {
                    &&& token_result(store@) is Ok
                    &&& final(client).log() == old(client).log().push(
                        TransferCall::Burn { from: current, amount },
                    )
                },
                Err(Error::TransferFailed { index }) => {
                    &&& index == 0
                    &&& token_result(store@) is Ok
                    &&& final(client).log() == old(client).log()
                },
                Err(e) => {
                    &&& token_result(store@) == Err::<Address, Error>(e)
                    &&& final(client).log() == old(client).log()
                },
            },
            token_result(store@) matches Err(e) ==> r == Err::<(), Error>(e),
    {
        match Self::get_token(store) {
            Ok(_) => {},
            Err(e) => {
                return Err(e);
            },
        }
        if client.burn(current, amount) {
            Ok(())
        } else {
            Err(Error::TransferFailed { index: 0 })
        }
    }

    /// Move `amount` of this contract's own balance to `to` (`current` is
    /// the contract's own address). Fails before any effect when `init` has
    /// not run; fails with `TransferFailed` at index 0, with no effect, when
    /// the token contract rejects the transfer.
    pub fn transfer<C: TokenClient>(
        store: &TieredStore,
        client: &mut C,
        current: Address,
        to: Address,
        amount: i128,
    ) -> (r: Result<(), Error>)
        requires
            token_result(store@) matches Ok(a) ==> a == old(client).token(),
        ensures
            final(client).token() == old(client).token(),
            match r {
                Ok(()) => {
                    &&& token_result(store@) is Ok
                    &&& final(client).log() == old(client).log().push(
                        TransferCall::Transfer { from: current, to, amount },
                    )
                },
                Err(Error::TransferFailed { index }) => {
                    &&& index == 0
                    &&& token_result(store@) is Ok
                    &&& final(client).log() == old(client).log()
                },
                Err(e) => {
                    &&& token_result(store@) == Err::<Address, Error>(e)
                    &&& final(client).log() == old(client).log()
                },
            },
            token_result(store@) matches Err(e) ==> r == Err::<(), Error>(e),
    {
        match Self::get_token(store) {
            Ok(_) => {},
            Err(e) => {
                return Err(e);
            },
        }
        if client.transfer(current, to, amount) {
            Ok(())
        } else {
            Err(Error::TransferFailed { index: 0 })
        }
    }
}

} // verus!
