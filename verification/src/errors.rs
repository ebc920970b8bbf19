use vstd::prelude::*;

verus! {

/// Why an invocation was rejected. Every error aborts the whole invocation;
/// no error is retried internally or downgraded to a default value.
#[derive(Clone, Copy, PartialEq, Eq, Structural, Debug)]
pub enum Error {
    /// A read of an absent (class, key) pair.
    NotFound,
    /// A value is present but does not have the shape the caller expected.
    TypeMismatch,
    /// An operational entry point ran before the one-time initialization.
    Uninitialized,
    /// The one-time initialization ran a second time.
    AlreadyInitialized,
    /// The invocation carries no valid authorization evidence for the principal.
    Unauthorized,
    /// A transfer batch whose recipient and amount lists differ in length.
    ShapeMismatch,
    /// An external transfer call failed; `index` is the failing position.
    TransferFailed { index: usize },
}

} // verus!
