use vstd::prelude::*;

use std::collections::HashMap;

use crate::errors::Error;
use crate::values::Address;
use crate::values::Value;

verus! {

/// The three retention tiers of the store. The same key addresses an
/// independent slot in each class.
#[derive(Clone, Copy, PartialEq, Eq, Structural, Debug)]
pub enum DurabilityClass {
    /// Survives across invocations and across contract-code upgrades.
    Persistent,
    /// Bundled with the contract instance's own footprint.
    Instance,
    /// May be evicted without warning after the current invocation.
    Temporary,
}

/// The abstract state of a [`TieredStore`]: one mathematical map per
/// durability class over the same key space.
#[verifier::ext_equal]
pub ghost struct StoreView {
    pub persistent: Map<u64, Value>,
    pub instance: Map<u64, Value>,
    pub temporary: Map<u64, Value>,
}

impl StoreView {
    /// The map held by one durability class.
    pub open spec fn class_map(self, class: DurabilityClass) -> Map<u64, Value> {
        match class {
            DurabilityClass::Persistent => self.persistent,
            DurabilityClass::Instance => self.instance,
            DurabilityClass::Temporary => self.temporary,
        }
    }

    /// The store with `class` replaced by `m` and the other classes unchanged.
    pub open spec fn with_class(self, class: DurabilityClass, m: Map<u64, Value>) -> StoreView {
        match class {
            DurabilityClass::Persistent => StoreView { persistent: m, ..self },
            DurabilityClass::Instance => StoreView { instance: m, ..self },
            DurabilityClass::Temporary => StoreView { temporary: m, ..self },
        }
    }

    /// The effect of `set`: overwrite one (class, key) slot, touch nothing else.
    pub open spec fn set_at(self, class: DurabilityClass, key: u64, value: Value) -> StoreView {
        self.with_class(class, self.class_map(class).insert(key, value))
    }

    /// The effect of `remove`: drop one (class, key) slot, touch nothing else.
    pub open spec fn remove_at(self, class: DurabilityClass, key: u64) -> StoreView {
        self.with_class(class, self.class_map(class).remove(key))
    }

    /// What is held at one (class, key) slot, if anything.
    pub open spec fn get_at(self, class: DurabilityClass, key: u64) -> Option<Value> {
        if self.class_map(class).contains_key(key) {
            Some(self.class_map(class)[key])
        } else {
            None
        }
    }

    /// What a read of one (class, key) slot returns: the value, or `NotFound`.
    pub open spec fn get_result(self, class: DurabilityClass, key: u64) -> Result<Value, Error> {
        match self.get_at(class, key) {
            Some(v) => Ok(v),
            None => Err(Error::NotFound),
        }
    }

    /// What a read that expects a `U32` returns: the integer, `TypeMismatch`
    /// for a value of another shape, or `NotFound`.
    pub open spec fn get_u32_result(self, class: DurabilityClass, key: u64) -> Result<u32, Error> {
        match self.get_at(class, key) {
            Some(Value::U32(n)) => Ok(n),
            Some(_) => Err(Error::TypeMismatch),
            None => Err(Error::NotFound),
        }
    }

    /// What a read that expects an `Addr` returns: the address, `TypeMismatch`
    /// for a value of another shape, or `NotFound`.
    pub open spec fn get_address_result(self, class: DurabilityClass, key: u64) -> Result<
        Address,
        Error,
    > {
        match self.get_at(class, key) {
            Some(Value::Addr(a)) => Ok(a),
            Some(_) => Err(Error::TypeMismatch),
            None => Err(Error::NotFound),
        }
    }

    /// A store with every class empty.
    pub open spec fn empty() -> StoreView {
        StoreView {
            persistent: Map::empty(),
            instance: Map::empty(),
            temporary: Map::empty(),
        }
    }
}

/// A contract-scoped key-value store with three independent durability
/// classes over the same logical namespace. The store owns every mapping in
/// its scope; no other component mutates them directly.
pub struct TieredStore {
    persistent: HashMap<u64, Value>,
    instance: HashMap<u64, Value>,
    temporary: HashMap<u64, Value>,
}

impl View for TieredStore {
    type V = StoreView;

    closed spec fn view(&self) -> StoreView {
        StoreView {
            persistent: self.persistent@,
            instance: self.instance@,
            temporary: self.temporary@,
        }
    }
}

impl TieredStore {
    /// A fresh store with every durability class empty.
    pub fn new() -> (store: TieredStore)
        ensures
            store@ == StoreView::empty(),
    {
        TieredStore {
            persistent: HashMap::new(),
            instance: HashMap::new(),
            temporary: HashMap::new(),
        }
    }

    /// Overwrite the (class, key) slot with `value`. Always succeeds, and
    /// never touches another key or another class.
    pub fn set(&mut self, class: DurabilityClass, key: u64, value: Value)
        ensures
            final(self)@ == old(self)@.set_at(class, key, value),
    {
        match class {
            DurabilityClass::Persistent => {
                self.persistent.insert(key, value);
            },
            DurabilityClass::Instance => {
                self.instance.insert(key, value);
            },
            DurabilityClass::Temporary => {
                self.temporary.insert(key, value);
            },
        }
    }

    /// Whether the (class, key) slot holds a value.
    pub fn has(&self, class: DurabilityClass, key: u64) -> (present: bool)
        ensures
            present == self@.class_map(class).contains_key(key),
    {
        match class {
            DurabilityClass::Persistent => self.persistent.contains_key(&key),
            DurabilityClass::Instance => self.instance.contains_key(&key),
            DurabilityClass::Temporary => self.temporary.contains_key(&key),
        }
    }

    /// Read the (class, key) slot: the value held there, or `NotFound` for an
    /// absent slot. Never substitutes a default.
    pub fn get(&self, class: DurabilityClass, key: u64) -> (r: Result<Value, Error>)
        ensures
            r == self@.get_result(class, key),
    {
        let found = match class {
            DurabilityClass::Persistent => self.persistent.get(&key),
            DurabilityClass::Instance => self.instance.get(&key),
            DurabilityClass::Temporary => self.temporary.get(&key),
        };
        match found {
            Some(v) => Ok(*v),
            None => Err(Error::NotFound),
        }
    }

    /// Read the (class, key) slot expecting a `U32` value.
    pub fn get_u32(&self, class: DurabilityClass, key: u64) -> (r: Result<u32, Error>)
        ensures
            r == self@.get_u32_result(class, key),
    {
        match self.get(class, key) {
            Ok(Value::U32(n)) => Ok(n),
            Ok(_) => Err(Error::TypeMismatch),
            Err(e) => Err(e),
        }
    }

    /// Read the (class, key) slot expecting an `Addr` value.
    pub fn get_address(&self, class: DurabilityClass, key: u64) -> (r: Result<Address, Error>)
        ensures
            r == self@.get_address_result(class, key),
    {
        match self.get(class, key) {
            Ok(Value::Addr(a)) => Ok(a),
            Ok(_) => Err(Error::TypeMismatch),
            Err(e) => Err(e),
        }
    }

    /// Drop the (class, key) slot. A no-op for an absent key, and never an
    /// error either way.
    pub fn remove(&mut self, class: DurabilityClass, key: u64)
        ensures
            final(self)@ == old(self)@.remove_at(class, key),
    {
        match class {
            DurabilityClass::Persistent => {
                self.persistent.remove(&key);
            },
            DurabilityClass::Instance => {
                self.instance.remove(&key);
            },
            DurabilityClass::Temporary => {
                self.temporary.remove(&key);
            },
        }
    }
}

/// Writing a (class, key) slot and then reading the same slot yields exactly
/// the value written.
pub proof fn lemma_set_then_get(v: StoreView, class: DurabilityClass, key: u64, value: Value)
    ensures
        v.set_at(class, key, value).get_result(class, key) == Ok::<Value, Error>(value),
{
}

/// Writing under one durability class leaves every slot of every other class
/// exactly as it was: a key set in one class is still absent from another
/// unless separately set there.
pub proof fn lemma_class_independence(
    v: StoreView,
    written: DurabilityClass,
    other: DurabilityClass,
    key: u64,
    value: Value,
)
    requires
        written != other,
    ensures
        v.set_at(written, key, value).class_map(other) == v.class_map(other),
        v.set_at(written, key, value).get_result(other, key) == v.get_result(other, key),
{
}

/// Removing a (class, key) slot and then reading the same slot yields
/// `NotFound`, and no other slot of any class is touched.
pub proof fn lemma_remove_then_get(v: StoreView, class: DurabilityClass, key: u64)
    ensures
        v.remove_at(class, key).get_result(class, key) == Err::<Value, Error>(Error::NotFound),
        forall|k: u64|
            k != key ==> v.remove_at(class, key).get_at(class, k) == v.get_at(class, k),
        forall|c: DurabilityClass, k: u64|
            c != class ==> v.remove_at(class, key).get_at(c, k) == v.get_at(c, k),
{
}

/// Removing an absent key changes nothing at all: `remove` is idempotent.
pub proof fn lemma_remove_absent_is_noop(v: StoreView, class: DurabilityClass, key: u64)
    requires
        !v.class_map(class).contains_key(key),
    ensures
        v.remove_at(class, key) == v,
{
    assert(v.class_map(class).remove(key) =~= v.class_map(class));
    assert(v.remove_at(class, key) =~= v);
}

} // verus!
