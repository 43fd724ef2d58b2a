//! Core of an invoice-factoring marketplace: a seller mints a tokenized
//! receivable, the designated debtor confirms it, the receivable can be resold
//! once on a marketplace, and the debtor finally settles by paying whoever
//! holds it. The host ledger supplies atomic execution, verified signer sets,
//! and timestamps; an external token contract performs value transfer. Both
//! are handed in as plain values: a signer set, a timestamp, and a returned
//! payment instruction.

pub mod auth;
pub mod errors;
pub mod market;
pub mod records;

pub use auth::is_signer;
pub use auth::require_auth;
pub use errors::Error;
pub use market::UISPContract;
pub use records::Invoice;
pub use records::InvoiceStatus;
pub use records::Listing;
pub use records::Payment;
