use vstd::prelude::*;

verus! {

/// A minimal arithmetic contract: one entry point that adds two integers.
pub struct Contract;

impl Contract {
    /// The sum of `a` and `b`. The sum must fit in the result type; an
    /// invocation whose sum would not fit is a caller error.
    pub fn add(a: u64, b: u64) -> (sum: u64)
        requires
            a + b <= u64::MAX,
        ensures
            sum == a + b,
    {
        a + b
    }
}

} // verus!
