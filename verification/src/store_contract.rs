use vstd::prelude::*;

use crate::errors::Error;
use crate::store::DurabilityClass;
use crate::store::TieredStore;
use crate::values::Value;

verus! {

/// The storage contract: entry points that expose the persistent durability
/// class of a contract-scoped store, keyed by caller-chosen keys.
pub struct Contract;

impl Contract {
    /// Write `value` under `key` in the persistent class, overwriting any
    /// prior value there and touching nothing else.
    pub fn set(store: &mut TieredStore, key: u64, value: Value)
        ensures
            final(store)@ == old(store)@.set_at(DurabilityClass::Persistent, key, value),
    {
        store.set(DurabilityClass::Persistent, key, value);
    }

    /// Read the value under `key` in the persistent class, or `NotFound` for
    /// an absent key — never a substituted default.
    pub fn get(store: &TieredStore, key: u64) -> (r: Result<Value, Error>)
        ensures
            r == store@.get_result(DurabilityClass::Persistent, key),
    {
        store.get(DurabilityClass::Persistent, key)
    }

    /// Drop the value under `key` in the persistent class; a no-op, not an
    /// error, when the key is absent.
    pub fn remove(store: &mut TieredStore, key: u64)
        ensures
            final(store)@ == old(store)@.remove_at(DurabilityClass::Persistent, key),
    {
        store.remove(DurabilityClass::Persistent, key);
    }
}

} // verus!
