use vstd::prelude::*;

verus! {

/// Lifecycle status of an invoice. Statuses only ever advance along
/// Pending -> Verified -> Listed -> Sold -> Settled; see [`advances`].
#[derive(Clone, Copy, Debug, PartialEq, Eq, Structural)]
pub enum InvoiceStatus {
    Pending,
    Verified,
    Listed,
    Sold,
    Settled,
}

/// One receivable and its current disposition. Identities are the plain
/// account ids under which the host ledger verifies signatures; amounts are
/// signed fixed-point quantities in the token's smallest unit.
#[derive(Clone, Copy, Debug, PartialEq, Eq, Structural)]
pub struct Invoice {
    /// Unique id, assigned once at mint time, strictly increasing from 1.
    pub id: u64,
    /// Identity that minted the invoice (the original creditor).
    pub seller: u64,
    /// Identity of the designated debtor; fixed for the invoice's lifetime.
    pub buyer: u64,
    /// Quantity owed at settlement.
    pub amount: i128,
    /// Timestamp before which settlement is disallowed.
    pub due_date: u64,
    pub status: InvoiceStatus,
    /// Ledger timestamp at mint.
    pub created_at: u64,
    /// Ledger timestamp at verification; 0 until then.
    pub verified_at: u64,
    /// Sale price; meaningful only once the invoice has been listed.
    pub listing_price: i128,
    /// Identity entitled to receive the settlement payment; starts as
    /// `seller`, changes only on a successful purchase.
    pub current_holder: u64,
}

/// One active sale offer for an invoice. A listing exists exactly while the
/// referenced invoice's status is Listed.
#[derive(Clone, Copy, Debug, PartialEq, Eq, Structural)]
pub struct Listing {
    pub invoice_id: u64,
    /// The holder who created the listing.
    pub seller: u64,
    pub price: i128,
    pub listed_at: u64,
}

/// A value-transfer instruction for the external token contract:
/// move `amount` of `token` from `from` to `to`. The core never moves value
/// itself; the host executes this inside the same atomic transaction.
#[derive(Clone, Copy, Debug, PartialEq, Eq, Structural)]
pub struct Payment {
    pub token: u64,
    pub from: u64,
    pub to: u64,
    pub amount: i128,
}

/// Position of a status in the lifecycle order.
pub open spec fn status_rank(s: InvoiceStatus) -> int {
    match s {
        InvoiceStatus::Pending => 0,
        InvoiceStatus::Verified => 1,
        InvoiceStatus::Listed => 2,
        InvoiceStatus::Sold => 3,
        InvoiceStatus::Settled => 4,
    }
}

/// The transition-legality table: a status either stays put or moves along
/// exactly one edge of Pending -> Verified -> Listed -> Sold -> Settled.
/// Every mutating operation promises this relation between the old and new
/// status of every stored invoice.
pub open spec fn advances(pre: InvoiceStatus, post: InvoiceStatus) -> bool {
    ||| post == pre
    ||| (pre is Pending && post is Verified)
    ||| (pre is Verified && post is Listed)
    ||| (pre is Listed && post is Sold)
    ||| (pre is Sold && post is Settled)
}

/// A status never moves backward, never skips Verified -> Sold without
/// passing through Listed, and Settled is terminal.
pub proof fn lemma_status_order(pre: InvoiceStatus, post: InvoiceStatus)
    requires
        advances(pre, post),
    ensures
        status_rank(pre) <= status_rank(post),
        !(pre is Verified && post is Sold),
        pre is Settled ==> post is Settled,
{
}

} // verus!
