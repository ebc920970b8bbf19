use vstd::prelude::*;

use crate::errors::Error;
use crate::store::DurabilityClass;
use crate::store::StoreView;
use crate::store::TieredStore;
use crate::values::Value;

verus! {

/// The persistent slot that holds the counter.
pub const COUNTER_KEY: u64 = 0;

/// The counter a store currently holds: the stored integer, or zero when the
/// slot has never been written. A slot holding a value of another shape has
/// no counter reading at all — an invocation finding one fails instead.
pub open spec fn counter_value(v: StoreView) -> u32 {
    match v.get_at(DurabilityClass::Persistent, COUNTER_KEY) {
        Some(Value::U32(n)) => n,
        _ => 0,
    }
}

/// Whether the counter slot is readable: absent, or holding a `U32`.
pub open spec fn counter_readable(v: StoreView) -> bool {
    match v.get_at(DurabilityClass::Persistent, COUNTER_KEY) {
        Some(Value::U32(_)) => true,
        Some(_) => false,
        None => true,
    }
}

/// The effect of one successful increment on the store.
pub open spec fn increment_effect(v: StoreView) -> StoreView {
    v.set_at(
        DurabilityClass::Persistent,
        COUNTER_KEY,
        Value::U32((counter_value(v) + 1) as u32),
    )
}

/// A counter contract: each invocation of its one entry point steps a
/// persistent counter and returns the stepped value.
pub struct IncrementContract;

impl IncrementContract {
    /// Step the persistent counter by one and return it. A store whose
    /// counter slot was never written counts from zero, so the first call
    /// returns 1; the stored value always equals the value returned. A slot
    /// holding a value of another shape fails with `TypeMismatch` and leaves
    /// the store untouched. The counter must not be at its maximum; stepping
    /// past it is a caller error.
    pub fn increment(store: &mut TieredStore) -> (r: Result<u32, Error>)
        requires
            counter_value(old(store)@) < u32::MAX,
        ensures
            match r {
                Ok(n) => {
                    &&& counter_readable(old(store)@)
                    &&& n == counter_value(old(store)@) + 1
                    &&& final(store)@ == increment_effect(old(store)@)
                    &&& counter_value(final(store)@) == n
                },
                Err(Error::TypeMismatch) => {
                    &&& !counter_readable(old(store)@)
                    &&& final(store)@ == old(store)@
                },
                Err(_) => false,
            },
            r is Ok <==> counter_readable(old(store)@),
    {
        let count: u32 = match store.get(DurabilityClass::Persistent, COUNTER_KEY) {
            Ok(Value::U32(n)) => n,
            Ok(_) => {
                return Err(Error::TypeMismatch);
            },
            Err(_) => 0,
        };
        let next = count + 1;
        store.set(DurabilityClass::Persistent, COUNTER_KEY, Value::U32(next));
        Ok(next)
    }
}

/// A store reached by `k` increments from `v`.
pub open spec fn increments_from(v: StoreView, k: nat) -> StoreView
    decreases k,
{
    if k == 0 {
        v
    } else {
        increment_effect(increments_from(v, (k - 1) as nat))
    }
}

/// Repeated increments on a store whose counter slot was never written
/// return 1, 2, 3, … in sequence: after the `k`-th call the stored counter —
/// which each call returns — is exactly `k`, and the slot stays readable, so
/// the next call is owed success too.
pub proof fn lemma_increment_sequence(v: StoreView, k: nat)
    requires
        v.get_at(DurabilityClass::Persistent, COUNTER_KEY) is None,
        k <= u32::MAX,
    ensures
        counter_value(increments_from(v, k)) == k,
        counter_readable(increments_from(v, k)),
    decreases k,
{
    if k > 0 {
        lemma_increment_sequence(v, (k - 1) as nat);
    }
}

} // verus!
