use vstd::prelude::*;

use crate::errors::Error;
use crate::values::Address;

verus! {

/// Invocation-scoped authorization evidence: the set of principals that have
/// consented to the current invocation. Evidence never carries over to an
/// unrelated invocation; a fresh invocation starts from fresh evidence.
pub struct AuthEvidence {
    granted: Vec<Address>,
}

impl AuthEvidence {
    /// Whether this invocation carries valid evidence for `principal`.
    pub closed spec fn authorizes(&self, principal: Address) -> bool {
        self.granted@.contains(principal)
    }

    /// Evidence for no principal at all.
    pub fn none() -> (evidence: AuthEvidence)
        ensures
            forall|p: Address| !evidence.authorizes(p),
    {
        AuthEvidence { granted: Vec::new() }
    }

    /// Record that `principal` has consented to the current invocation.
    pub fn grant(&mut self, principal: Address)
        ensures
            forall|p: Address|
                final(self).authorizes(p) <==> old(self).authorizes(p) || p == principal,
    {
        self.granted.push(principal);
        assert forall|p: Address|
            self.authorizes(p) <==> old(self).authorizes(p) || p == principal by {
            if old(self).authorizes(p) {
                let i = choose|i: int|
                    0 <= i < old(self).granted@.len() && old(self).granted@[i] == p;
                assert(self.granted@[i] == p);
            }
            if p == principal {
                assert(self.granted@[self.granted@.len() - 1] == p);
            }
            if self.authorizes(p) {
                let i = choose|i: int| 0 <= i < self.granted@.len() && self.granted@[i] == p;
                if i < self.granted@.len() - 1 {
                    assert(old(self).granted@[i] == p);
                }
            }
        }
    }

    /// The capability check: succeeds if and only if this invocation carries
    /// valid authorization evidence for exactly `principal`; fails with
    /// `Unauthorized` otherwise, before any effect has occurred.
    pub fn require_auth(&self, principal: Address) -> (r: Result<(), Error>)
        ensures
            r == if self.authorizes(principal) {
                Ok::<(), Error>(())
            } else {
                Err::<(), Error>(Error::Unauthorized)
            },
    {
        for i in 0..self.granted.len()
            invariant
                forall|j: int| 0 <= j < i ==> self.granted@[j] != principal,
        {
            if self.granted[i] == principal {
                return Ok(());
            }
        }
        Err(Error::Unauthorized)
    }
}

} // verus!
