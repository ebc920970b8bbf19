use vstd::prelude::*;

verus! {

/// An opaque principal identity, used both as an authorization subject and
/// as a transfer endpoint.
#[derive(Clone, Copy, PartialEq, Eq, Structural, Debug)]
pub struct Address {
    pub id: u64,
}

/// A payload held by the tiered store. A read that expects one shape and
/// finds another is a `TypeMismatch`, never a silent cast.
#[derive(Clone, Copy, PartialEq, Eq, Structural, Debug)]
pub enum Value {
    U32(u32),
    I128(i128),
    Addr(Address),
}

} // verus!
