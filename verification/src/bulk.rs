use vstd::prelude::*;

use crate::auth::AuthEvidence;
use crate::errors::Error;
use crate::token::TokenClient;
use crate::token::TransferCall;
use crate::values::Address;

verus! {

/// The calls a batch asks for, in the given order: one transfer from the
/// sender to each recipient of the matching amount.
pub open spec fn batch_calls(
    sender: Address,
    recipients: Seq<Address>,
    amounts: Seq<i128>,
) -> Seq<TransferCall> {
    Seq::new(
        recipients.len(),
        |i: int| TransferCall::Transfer { from: sender, to: recipients[i], amount: amounts[i] },
    )
}

/// A contract that executes a batch of transfers as one all-or-nothing unit.
pub struct Contract;

impl Contract {
    /// Transfer `amounts[i]` from `sender` to `recipients[i]` on the token
    /// contract at `token`, for every index in the given order.
    ///
    /// Mismatched list lengths are rejected with `ShapeMismatch` before the
    /// authorization check or the token capability is consulted. The
    /// authorization check runs exactly once, before any transfer; missing evidence for
    /// `sender` aborts with `Unauthorized` and zero transfer calls. A failed
    /// transfer aborts with `TransferFailed` carrying its index, with no call
    /// issued beyond it — the surrounding invocation discards the earlier
    /// transfers of the batch, so no compensation is issued here.
    pub fn bulk_transfer<C: TokenClient>(
        auth: &AuthEvidence,
        client: &mut C,
        sender: Address,
        token: Address,
        recipients: &Vec<Address>,
        amounts: &Vec<i128>,
    ) -> (r: Result<(), Error>)
        requires
            old(client).token() == token,
        ensures
            final(client).token() == old(client).token(),
            match r {
                Ok(()) => {
                    &&& recipients@.len() == amounts@.len()
                    &&& auth.authorizes(sender)
                    &&& final(client).log() == old(client).log() + batch_calls(
                        sender,
                        recipients@,
                        amounts@,
                    )
                },
                Err(Error::ShapeMismatch) => {
                    &&& recipients@.len() != amounts@.len()
                    &&& final(client).log() == old(client).log()
                },
                Err(Error::Unauthorized) => {
                    &&& recipients@.len() == amounts@.len()
                    &&& !auth.authorizes(sender)
                    &&& final(client).log() == old(client).log()
                },
                Err(Error::TransferFailed { index }) => {
                    &&& recipients@.len() == amounts@.len()
                    &&& auth.authorizes(sender)
                    &&& index < recipients@.len()
                    &&& final(client).log() == old(client).log() + batch_calls(
                        sender,
                        recipients@,
                        amounts@,
                    ).take(index as int)
                },
                Err(_) => false,
            },
            recipients@.len() != amounts@.len() <==> r == Err::<(), Error>(Error::ShapeMismatch),
            recipients@.len() == amounts@.len() && !auth.authorizes(sender) <==> r == Err::<
                (),
                Error,
            >(Error::Unauthorized),
    {
        if recipients.len() != amounts.len() {
            return Err(Error::ShapeMismatch);
        }
        match auth.require_auth(sender) {
            Ok(()) => {},
            Err(e) => {
                return Err(e);
            },
        }
        let n = recipients.len();
        for i in 0..n
            invariant
                n == recipients@.len(),
                n == amounts@.len(),
                auth.authorizes(sender),
                client.token() == old(client).token(),
                client.log() == old(client).log() + batch_calls(
                    sender,
                    recipients@,
                    amounts@,
                ).take(i as int),
        {
            if !client.transfer(sender, recipients[i], amounts[i]) {
                return Err(Error::TransferFailed { index: i });
            }
            proof {
                let batch = batch_calls(sender, recipients@, amounts@);
                assert(batch.take(i + 1) =~= batch.take(i as int).push(batch[i as int]));
                assert(old(client).log() + batch.take(i + 1) =~= (old(client).log() + batch.take(
                    i as int,
                )).push(batch[i as int]));
            }
        }
        proof {
            let batch = batch_calls(sender, recipients@, amounts@);
            assert(batch.take(n as int) =~= batch);
        }
        Ok(())
    }
}

} // verus!
