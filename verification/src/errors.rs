use vstd::prelude::*;

verus! {

/// Failure kinds of the marketplace. Every failed operation leaves the state
/// untouched and reports exactly one of these, so callers can branch on the
/// kind.
#[derive(Clone, Copy, Debug, PartialEq, Eq, Structural)]
pub enum Error {
    /// A second attempt to record the admin identity.
    AlreadyInitialized,
    /// The acting identity is not in the verified signer set, or is not the
    /// role-specific identity the operation demands (designated buyer,
    /// original debtor, current holder).
    AuthorizationFailure,
    /// No invoice, or no active listing, is stored under the given id.
    NotFound,
    /// The operation was attempted from the wrong lifecycle status.
    InvalidStateTransition,
    /// Settlement was attempted before the invoice's due date.
    NotYetDue,
}

} // verus!
