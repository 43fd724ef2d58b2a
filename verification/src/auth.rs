use vstd::prelude::*;

use crate::errors::Error;

verus! {

/// Whether `identity` is among the transaction's verified signers.
pub fn is_signer(signers: &Vec<u64>, identity: u64) -> (r: bool)
    ensures
        r == signers@.contains(identity),
{
    let n: usize = signers.len();
    let mut i: usize = 0;
    while i < n
        invariant
            n == signers@.len(),
            i <= n,
            forall|k: int| 0 <= k < i ==> signers@[k] != identity,
        decreases n - i,
    {
        if signers[i] == identity {
            assert(signers@[i as int] == identity);
            return true;
        }
        i = i + 1;
    }
    false
}

/// The identity gate: passes exactly when the transaction's verified signer
/// set includes `identity`; otherwise reports an authorization failure.
pub fn require_auth(signers: &Vec<u64>, identity: u64) -> (r: Result<(), Error>)
    ensures
        signers@.contains(identity) ==> r == Ok::<(), Error>(()),
        !signers@.contains(identity) ==> r == Err::<(), Error>(Error::AuthorizationFailure),
{
    if is_signer(signers, identity) {
        Ok(())
    } else {
        Err(Error::AuthorizationFailure)
    }
}

} // verus!
