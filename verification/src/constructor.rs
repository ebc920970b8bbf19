use vstd::prelude::*;

use crate::errors::Error;
use crate::store::DurabilityClass;
use crate::store::StoreView;
use crate::store::TieredStore;
use crate::token::TokenClient;
use crate::token::TransferCall;
use crate::values::Address;
use crate::values::Value;

verus! {

/// The reserved slot that holds the explicit lifecycle marker.
pub const STATE_KEY: u64 = 0;

/// The slot the class-independence markers are written under.
pub const MARKER_KEY: u64 = 1;

/// Whether the one-time initialization has run: the lifecycle marker is
/// present under its reserved persistent slot.
pub open spec fn is_initialized(v: StoreView) -> bool {
    v.persistent.contains_key(STATE_KEY)
}

/// The writes of a successful initialization: the lifecycle marker, and one
/// marker per durability class under the same key — the same key holding an
/// independent value in each class.
pub open spec fn initialize_effect(v: StoreView) -> StoreView {
    v.set_at(DurabilityClass::Persistent, STATE_KEY, Value::U32(1)).set_at(
        DurabilityClass::Persistent,
        MARKER_KEY,
        Value::U32(1),
    ).set_at(DurabilityClass::Instance, MARKER_KEY, Value::U32(2)).set_at(
        DurabilityClass::Temporary,
        MARKER_KEY,
        Value::U32(3),
    )
}

/// A contract whose one-time constructor pulls funds from a sender and then
/// marks the instance initialized.
pub struct Contract;

impl Contract {
    /// One-time initialization: pull `amount` from `sender` to the
    /// contract's own address (`current`) on the token contract at
    /// `token_contract`, then write the markers — all writes, or none.
    ///
    /// A second run fails with `AlreadyInitialized` and changes nothing.
    /// When the pull fails, no marker is written either: the instance stays
    /// uninitialized and the ledger is untouched.
    pub fn initialize<C: TokenClient>(
        store: &mut TieredStore,
        client: &mut C,
        sender: Address,
        token_contract: Address,
        current: Address,
        amount: i128,
    ) -> (r: Result<(), Error>)
        requires
            old(client).token() == token_contract,
        ensures
            final(client).token() == old(client).token(),
            match r {
                Ok(()) => {
                    &&& !is_initialized(old(store)@)
                    &&& final(client).log() == old(client).log().push(
                        TransferCall::Transfer { from: sender, to: current, amount },
                    )
                    &&& final(store)@ == initialize_effect(old(store)@)
                    &&& is_initialized(final(store)@)
                },
                Err(Error::AlreadyInitialized) => {
                    &&& is_initialized(old(store)@)
                    &&& final(store)@ == old(store)@
                    &&& final(client).log() == old(client).log()
                },
                Err(Error::TransferFailed { index }) => {
                    &&& index == 0
                    &&& !is_initialized(old(store)@)
                    &&& final(store)@ == old(store)@
                    &&& final(client).log() == old(client).log()
                },
                Err(_) => false,
            },
            is_initialized(old(store)@) <==> r == Err::<(), Error>(Error::AlreadyInitialized),
    {
        if store.has(DurabilityClass::Persistent, STATE_KEY) {
            return Err(Error::AlreadyInitialized);
        }
        if !client.transfer(sender, current, amount) {
            return Err(Error::TransferFailed { index: 0 });
        }
        store.set(DurabilityClass::Persistent, STATE_KEY, Value::U32(1));
        store.set(DurabilityClass::Persistent, MARKER_KEY, Value::U32(1));
        store.set(DurabilityClass::Instance, MARKER_KEY, Value::U32(2));
        store.set(DurabilityClass::Temporary, MARKER_KEY, Value::U32(3));
        Ok(())
    }
}

/// Initialization is one-way: the writes of a successful `initialize` leave
/// any store initialized, and there is no teardown.
pub proof fn lemma_initialize_is_permanent(v: StoreView)
    ensures
        is_initialized(initialize_effect(v)),
{
}

} // verus!
