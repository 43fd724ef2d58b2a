use uisp::require_auth;
use uisp::is_signer;
use uisp::Error;
use uisp::InvoiceStatus;
use uisp::Payment;
use uisp::UISPContract;

const ADMIN: u64 = 1;
const SELLER: u64 = 2;
const BUYER: u64 = 3;
const INVESTOR: u64 = 4;
const OUTSIDER: u64 = 9;
const TOKEN: u64 = 77;
const DUE: u64 = 1000;

fn all_signers() -> Vec<u64> {
    vec![ADMIN, SELLER, BUYER, INVESTOR]
}

fn sold_invoice() -> (UISPContract, Vec<u64>) {
    let mut contract = UISPContract::new();
    let signers = all_signers();
    contract.initialize(ADMIN).unwrap();
    contract.mint(&signers, SELLER, BUYER, 500, DUE, 10).unwrap();
    contract.verify(&signers, 1, BUYER, 20).unwrap();
    contract.list(&signers, 1, SELLER, 450, 30).unwrap();
    contract.buy(&signers, 1, INVESTOR, TOKEN).unwrap();
    (contract, signers)
}

#[test]
fn ids_increase_and_count_tracks_mints() {
    let mut contract = UISPContract::new();
    let signers = all_signers();
    contract.initialize(ADMIN).unwrap();
    assert_eq!(contract.get_invoice_count(), 0);

    assert_eq!(contract.mint(&signers, SELLER, BUYER, 100, DUE, 1).unwrap(), 1);
    assert_eq!(contract.get_invoice_count(), 1);
    assert_eq!(contract.mint(&signers, SELLER, INVESTOR, 200, DUE, 2).unwrap(), 2);
    assert_eq!(contract.get_invoice_count(), 2);

    // A failed mint allocates no id and leaves the count unchanged.
    assert_eq!(
        contract.mint(&signers, OUTSIDER, BUYER, 300, DUE, 3).unwrap_err(),
        Error::AuthorizationFailure
    );
    assert_eq!(contract.get_invoice_count(), 2);

    assert_eq!(contract.mint(&signers, INVESTOR, BUYER, 300, DUE, 4).unwrap(), 3);
    assert_eq!(contract.get_invoice_count(), 3);

    assert_eq!(contract.get_invoice(1).unwrap().id, 1);
    assert_eq!(contract.get_invoice(2).unwrap().id, 2);
    assert_eq!(contract.get_invoice(3).unwrap().id, 3);
}

#[test]
fn status_never_regresses() {
    let mut contract = UISPContract::new();
    let signers = all_signers();
    contract.initialize(ADMIN).unwrap();
    contract.mint(&signers, SELLER, BUYER, 500, DUE, 10).unwrap();
    assert_eq!(contract.get_invoice(1).unwrap().status, InvoiceStatus::Pending);

    contract.verify(&signers, 1, BUYER, 20).unwrap();
    assert_eq!(contract.get_invoice(1).unwrap().status, InvoiceStatus::Verified);
    // A second verification cannot move the status back to Pending.
    assert_eq!(
        contract.verify(&signers, 1, BUYER, 21).unwrap_err(),
        Error::InvalidStateTransition
    );
    assert_eq!(contract.get_invoice(1).unwrap().status, InvoiceStatus::Verified);

    contract.list(&signers, 1, SELLER, 450, 30).unwrap();
    assert_eq!(contract.get_invoice(1).unwrap().status, InvoiceStatus::Listed);
    // Listing again from Listed is rejected: no skipping, no re-listing.
    assert_eq!(
        contract.list(&signers, 1, SELLER, 440, 31).unwrap_err(),
        Error::InvalidStateTransition
    );

    contract.buy(&signers, 1, INVESTOR, TOKEN).unwrap();
    assert_eq!(contract.get_invoice(1).unwrap().status, InvoiceStatus::Sold);
    // A sold invoice cannot be re-listed, even by its new holder.
    assert_eq!(
        contract.list(&signers, 1, INVESTOR, 440, 32).unwrap_err(),
        Error::InvalidStateTransition
    );

    contract.settle(&signers, 1, BUYER, TOKEN, DUE).unwrap();
    assert_eq!(contract.get_invoice(1).unwrap().status, InvoiceStatus::Settled);
}

#[test]
fn listing_exists_iff_status_listed() {
    let mut contract = UISPContract::new();
    let signers = all_signers();
    contract.initialize(ADMIN).unwrap();
    contract.mint(&signers, SELLER, BUYER, 500, DUE, 10).unwrap();

    assert_eq!(contract.get_listing(1).unwrap_err(), Error::NotFound);
    contract.verify(&signers, 1, BUYER, 20).unwrap();
    assert_eq!(contract.get_listing(1).unwrap_err(), Error::NotFound);

    contract.list(&signers, 1, SELLER, 450, 30).unwrap();
    assert_eq!(contract.get_invoice(1).unwrap().status, InvoiceStatus::Listed);
    assert_eq!(contract.get_listing(1).unwrap().price, 450);

    contract.buy(&signers, 1, INVESTOR, TOKEN).unwrap();
    assert_ne!(contract.get_invoice(1).unwrap().status, InvoiceStatus::Listed);
    assert_eq!(contract.get_listing(1).unwrap_err(), Error::NotFound);
}

#[test]
fn settle_before_due_fails() {
    let (mut contract, signers) = sold_invoice();
    assert_eq!(
        contract.settle(&signers, 1, BUYER, TOKEN, DUE - 1).unwrap_err(),
        Error::NotYetDue
    );
    assert_eq!(
        contract.settle(&signers, 1, BUYER, TOKEN, 0).unwrap_err(),
        Error::NotYetDue
    );
    // Status is still Sold and a later attempt succeeds.
    assert_eq!(contract.get_invoice(1).unwrap().status, InvoiceStatus::Sold);
    assert!(contract.settle(&signers, 1, BUYER, TOKEN, DUE).is_ok());
}

#[test]
fn settle_checks_status_before_due_date() {
    // The lifecycle check precedes the due-date check: an invoice that was
    // never sold is rejected as an illegal transition even before its due
    // date, and settlement never succeeds early.
    let mut contract = UISPContract::new();
    let signers = all_signers();
    contract.initialize(ADMIN).unwrap();
    contract.mint(&signers, SELLER, BUYER, 500, DUE, 10).unwrap();
    assert_eq!(
        contract.settle(&signers, 1, BUYER, TOKEN, DUE - 1).unwrap_err(),
        Error::InvalidStateTransition
    );
}

#[test]
fn illegal_transitions_are_rejected() {
    let mut contract = UISPContract::new();
    let signers = all_signers();
    contract.initialize(ADMIN).unwrap();
    contract.mint(&signers, SELLER, BUYER, 500, DUE, 10).unwrap();

    // Listing a Pending (non-Verified) invoice fails.
    assert_eq!(
        contract.list(&signers, 1, SELLER, 450, 11).unwrap_err(),
        Error::InvalidStateTransition
    );

    contract.verify(&signers, 1, BUYER, 20).unwrap();
    // Verifying an already-Verified invoice fails.
    assert_eq!(
        contract.verify(&signers, 1, BUYER, 21).unwrap_err(),
        Error::InvalidStateTransition
    );
}

#[test]
fn buy_is_atomic() {
    let mut contract = UISPContract::new();
    let signers = all_signers();
    contract.initialize(ADMIN).unwrap();
    contract.mint(&signers, SELLER, BUYER, 500, DUE, 10).unwrap();
    contract.verify(&signers, 1, BUYER, 20).unwrap();
    contract.list(&signers, 1, SELLER, 450, 30).unwrap();

    let payment = contract.buy(&signers, 1, INVESTOR, TOKEN).unwrap();
    // Exactly the listing price moves from the buyer to the prior holder.
    assert_eq!(
        payment,
        Payment { token: TOKEN, from: INVESTOR, to: SELLER, amount: 450 }
    );
    let invoice = contract.get_invoice(1).unwrap();
    assert_eq!(invoice.status, InvoiceStatus::Sold);
    assert_eq!(invoice.current_holder, INVESTOR);
    assert_eq!(contract.get_listing(1).unwrap_err(), Error::NotFound);

    // The listing is gone, so a second purchase attempt fails.
    assert_eq!(
        contract.buy(&signers, 1, INVESTOR, TOKEN).unwrap_err(),
        Error::NotFound
    );
}

#[test]
fn settle_pays_holder_and_is_terminal() {
    let (mut contract, signers) = sold_invoice();
    let payment = contract.settle(&signers, 1, BUYER, TOKEN, DUE + 1).unwrap();
    // Exactly the invoice amount moves from the debtor to the current holder.
    assert_eq!(
        payment,
        Payment { token: TOKEN, from: BUYER, to: INVESTOR, amount: 500 }
    );
    assert_eq!(contract.get_invoice(1).unwrap().status, InvoiceStatus::Settled);

    // A second settlement attempt fails: Settled is terminal.
    assert_eq!(
        contract.settle(&signers, 1, BUYER, TOKEN, DUE + 2).unwrap_err(),
        Error::InvalidStateTransition
    );
}

#[test]
fn initialize_only_once() {
    let mut contract = UISPContract::new();
    assert!(contract.initialize(ADMIN).is_ok());
    assert_eq!(contract.initialize(ADMIN).unwrap_err(), Error::AlreadyInitialized);
    assert_eq!(contract.initialize(OUTSIDER).unwrap_err(), Error::AlreadyInitialized);
}

#[test]
fn authorization_failures() {
    let mut contract = UISPContract::new();
    let signers = all_signers();
    contract.initialize(ADMIN).unwrap();
    contract.mint(&signers, SELLER, BUYER, 500, DUE, 10).unwrap();

    // The caller must be in the verified signer set.
    assert_eq!(
        contract.mint(&signers, OUTSIDER, BUYER, 500, DUE, 10).unwrap_err(),
        Error::AuthorizationFailure
    );
    // Only the designated buyer can verify.
    assert_eq!(
        contract.verify(&signers, 1, SELLER, 20).unwrap_err(),
        Error::AuthorizationFailure
    );
    contract.verify(&signers, 1, BUYER, 20).unwrap();
    // Only the current holder can list.
    assert_eq!(
        contract.list(&signers, 1, BUYER, 450, 30).unwrap_err(),
        Error::AuthorizationFailure
    );
    contract.list(&signers, 1, SELLER, 450, 30).unwrap();
    contract.buy(&signers, 1, INVESTOR, TOKEN).unwrap();
    // Only the original debtor can settle, holder or not.
    assert_eq!(
        contract.settle(&signers, 1, INVESTOR, TOKEN, DUE).unwrap_err(),
        Error::AuthorizationFailure
    );
}

#[test]
fn unknown_ids_are_not_found() {
    let mut contract = UISPContract::new();
    let signers = all_signers();
    contract.initialize(ADMIN).unwrap();

    assert_eq!(contract.get_invoice(0).unwrap_err(), Error::NotFound);
    assert_eq!(contract.get_invoice(1).unwrap_err(), Error::NotFound);
    assert_eq!(contract.get_listing(1).unwrap_err(), Error::NotFound);
    assert_eq!(contract.verify(&signers, 5, BUYER, 1).unwrap_err(), Error::NotFound);
    assert_eq!(contract.list(&signers, 5, SELLER, 450, 1).unwrap_err(), Error::NotFound);
    assert_eq!(contract.buy(&signers, 5, INVESTOR, TOKEN).unwrap_err(), Error::NotFound);
    assert_eq!(contract.settle(&signers, 5, BUYER, TOKEN, DUE).unwrap_err(), Error::NotFound);

    contract.mint(&signers, SELLER, BUYER, 500, DUE, 10).unwrap();
    // An invoice that exists but was never listed has no listing to buy.
    assert_eq!(contract.buy(&signers, 1, INVESTOR, TOKEN).unwrap_err(), Error::NotFound);
}

#[test]
fn invoices_by_seller_covers_minter_and_holder() {
    let mut contract = UISPContract::new();
    let signers = all_signers();
    contract.initialize(ADMIN).unwrap();
    contract.mint(&signers, SELLER, BUYER, 100, DUE, 1).unwrap();
    contract.mint(&signers, INVESTOR, BUYER, 200, DUE, 2).unwrap();
    contract.mint(&signers, SELLER, INVESTOR, 300, DUE, 3).unwrap();

    let of_seller = contract.get_invoices_by_seller(SELLER);
    assert_eq!(of_seller.len(), 2);
    assert_eq!(of_seller[0].id, 1);
    assert_eq!(of_seller[1].id, 3);

    // After a purchase the new holder sees the invoice too, in id order.
    contract.verify(&signers, 1, BUYER, 4).unwrap();
    contract.list(&signers, 1, SELLER, 90, 5).unwrap();
    contract.buy(&signers, 1, INVESTOR, TOKEN).unwrap();

    let of_investor = contract.get_invoices_by_seller(INVESTOR);
    assert_eq!(of_investor.len(), 2);
    assert_eq!(of_investor[0].id, 1);
    assert_eq!(of_investor[1].id, 2);

    // The original seller still sees what it minted.
    let of_seller_after = contract.get_invoices_by_seller(SELLER);
    assert_eq!(of_seller_after.len(), 2);
    assert_eq!(contract.get_invoices_by_seller(OUTSIDER).len(), 0);
}

#[test]
fn all_listings_in_store_order() {
    let mut contract = UISPContract::new();
    let signers = all_signers();
    contract.initialize(ADMIN).unwrap();
    for k in 0u64..3u64 {
        contract.mint(&signers, SELLER, BUYER, 100 + k as i128, DUE, 1).unwrap();
        contract.verify(&signers, k + 1, BUYER, 2).unwrap();
    }
    assert_eq!(contract.get_all_listings().len(), 0);

    contract.list(&signers, 3, SELLER, 93, 5).unwrap();
    contract.list(&signers, 1, SELLER, 91, 6).unwrap();

    let listings = contract.get_all_listings();
    assert_eq!(listings.len(), 2);
    assert_eq!(listings[0].invoice_id, 1);
    assert_eq!(listings[0].price, 91);
    assert_eq!(listings[1].invoice_id, 3);
    assert_eq!(listings[1].price, 93);

    contract.buy(&signers, 1, INVESTOR, TOKEN).unwrap();
    let listings_after = contract.get_all_listings();
    assert_eq!(listings_after.len(), 1);
    assert_eq!(listings_after[0].invoice_id, 3);
}

#[test]
fn identity_gate() {
    let signers: Vec<u64> = vec![ADMIN, SELLER];
    assert!(is_signer(&signers, ADMIN));
    assert!(is_signer(&signers, SELLER));
    assert!(!is_signer(&signers, OUTSIDER));
    assert!(require_auth(&signers, SELLER).is_ok());
    assert_eq!(require_auth(&signers, OUTSIDER).unwrap_err(), Error::AuthorizationFailure);
    let empty: Vec<u64> = vec![];
    assert_eq!(require_auth(&empty, ADMIN).unwrap_err(), Error::AuthorizationFailure);
}
