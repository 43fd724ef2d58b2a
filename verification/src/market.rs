use vstd::prelude::*;

use crate::errors::Error;
use crate::records::Invoice;
use crate::records::InvoiceStatus;
use crate::records::Listing;
use crate::records::Payment;
use crate::records::advances;
use crate::records::status_rank;
use crate::auth::require_auth;

verus! {

/// The marketplace's persistent state: the admin record, the sequence
/// counter, and the two stores. Invoice ids are dense — the invoice with id
/// `i` sits at index `i - 1` — so the invoice store is a vector, and the
/// listing store a parallel vector with at most one active listing per
/// invoice. The whole value lives inside one host transaction: an operation
/// either commits all of its writes or none.
pub struct UISPContract {
    /// Admin identity; present exactly once initialization has run.
    pub admin: Option<u64>,
    /// Sequence counter: the number of invoices ever minted.
    pub counter: u64,
    /// Invoice store, keyed by id: the invoice with id `i` is at index `i - 1`.
    pub invoices: Vec<Invoice>,
    /// Listing store, parallel to `invoices`: `Some` exactly while the
    /// invoice at the same index is Listed.
    pub listings: Vec<Option<Listing>>,
}

impl UISPContract {
    /// Well-formedness of the state; established at construction and
    /// preserved by every operation.
    pub open spec fn wf(self) -> bool {
        &&& self.counter as int == self.invoices@.len()
        &&& self.listings@.len() == self.invoices@.len()
        &&& forall|i: int|
            0 <= i < self.invoices@.len() ==> (#[trigger] self.invoices@[i]).id == i + 1
        &&& forall|i: int|
            0 <= i < self.invoices@.len() ==> ((#[trigger] self.listings@[i]) is Some
                <==> self.invoices@[i].status is Listed)
        &&& forall|i: int|
            0 <= i < self.invoices@.len() ==> ((#[trigger] self.listings@[i]) matches Some(l)
                ==> l.invoice_id == i + 1 && l.price == self.invoices@[i].listing_price
                    && l.seller == self.invoices@[i].current_holder)
        &&& forall|i: int|
            0 <= i < self.invoices@.len()
                ==> (status_rank((#[trigger] self.invoices@[i]).status)
                    < status_rank(InvoiceStatus::Sold)
                ==> self.invoices@[i].current_holder == self.invoices@[i].seller)
    }

    /// Whether an invoice is stored under `invoice_id`.
    pub open spec fn has_invoice(self, invoice_id: u64) -> bool {
        1 <= invoice_id <= self.invoices@.len()
    }

    /// The stored invoice with id `invoice_id`.
    pub open spec fn invoice_at(self, invoice_id: u64) -> Invoice
        recommends
            self.has_invoice(invoice_id),
    {
        self.invoices@[invoice_id - 1]
    }

    /// The active listing for `invoice_id`, if any.
    pub open spec fn listing_at(self, invoice_id: u64) -> Option<Listing>
        recommends
            self.has_invoice(invoice_id),
    {
        self.listings@[invoice_id - 1]
    }

    /// Outcome table for `mint`: the first failing check, in the order the
    /// operation applies them, or `None` when minting succeeds.
    pub open spec fn mint_check(self, signers: Seq<u64>, seller: u64) -> Option<Error> {
        if !signers.contains(seller) {
            Some(Error::AuthorizationFailure)
        } else {
            None
        }
    }

    /// Outcome table for `verify`: the first failing check, in order, or
    /// `None` when verification succeeds.
    pub open spec fn verify_check(self, signers: Seq<u64>, invoice_id: u64, buyer: u64) -> Option<
        Error,
    > {
        if !signers.contains(buyer) {
            Some(Error::AuthorizationFailure)
        } else if !self.has_invoice(invoice_id) {
            Some(Error::NotFound)
        } else if self.invoice_at(invoice_id).buyer != buyer {
            Some(Error::AuthorizationFailure)
        } else if !(self.invoice_at(invoice_id).status is Pending) {
            Some(Error::InvalidStateTransition)
        } else {
            None
        }
    }

    /// Outcome table for `list`.
    pub open spec fn list_check(self, signers: Seq<u64>, invoice_id: u64, seller: u64) -> Option<
        Error,
    > {
        if !signers.contains(seller) {
            Some(Error::AuthorizationFailure)
        } else if !self.has_invoice(invoice_id) {
            Some(Error::NotFound)
        } else if self.invoice_at(invoice_id).current_holder != seller {
            Some(Error::AuthorizationFailure)
        } else if !(self.invoice_at(invoice_id).status is Verified) {
            Some(Error::InvalidStateTransition)
        } else {
            None
        }
    }

    /// Outcome table for `buy`. A missing listing signals "not listed" as
    /// `NotFound`; in a well-formed state the listing exists exactly when the
    /// status is Listed, so the final status check can no longer fail.
    pub open spec fn buy_check(self, signers: Seq<u64>, invoice_id: u64, buyer: u64) -> Option<
        Error,
    > {
        if !signers.contains(buyer) {
            Some(Error::AuthorizationFailure)
        } else if !self.has_invoice(invoice_id) {
            Some(Error::NotFound)
        } else if self.listing_at(invoice_id) is None {
            Some(Error::NotFound)
        } else if !(self.invoice_at(invoice_id).status is Listed) {
            Some(Error::InvalidStateTransition)
        } else {
            None
        }
    }

    /// Outcome table for `settle`. The debtor check precedes the status
    /// check, which precedes the due-date check, so settlement attempted
    /// before the due date reports `NotYetDue` exactly when every earlier
    /// check passes — and never succeeds.
    pub open spec fn settle_check(
        self,
        signers: Seq<u64>,
        invoice_id: u64,
        payer: u64,
        now: u64,
    ) -> Option<Error> {
        if !signers.contains(payer) {
            Some(Error::AuthorizationFailure)
        } else if !self.has_invoice(invoice_id) {
            Some(Error::NotFound)
        } else if self.invoice_at(invoice_id).buyer != payer {
            Some(Error::AuthorizationFailure)
        } else if !(self.invoice_at(invoice_id).status is Sold) {
            Some(Error::InvalidStateTransition)
        } else if now < self.invoice_at(invoice_id).due_date {
            Some(Error::NotYetDue)
        } else {
            None
        }
    }

    /// A fresh, uninitialized state: no admin, no invoices, no listings.
    pub fn new() -> (r: UISPContract)
        ensures
            r.wf(),
            r.admin is None,
            r.counter == 0,
            r.invoices@.len() == 0,
            r.listings@.len() == 0,
    {
        UISPContract { admin: None, counter: 0, invoices: Vec::new(), listings: Vec::new() }
    }

    /// Records the admin identity and resets the sequence counter; fails if
    /// an admin is already recorded. Meant to run exactly once, before any
    /// mint — hence the demand that an uninitialized store be empty.
    pub fn initialize(&mut self, admin: u64) -> (r: Result<(), Error>)
        requires
            old(self).wf(),
            old(self).admin is None ==> old(self).invoices@.len() == 0,
        ensures
            final(self).wf(),
            old(self).admin is Some ==> r == Err::<(), Error>(Error::AlreadyInitialized)
                && *final(self) == *old(self),
            old(self).admin is None ==> {
                &&& r == Ok::<(), Error>(())
                &&& final(self).admin == Some(admin)
                &&& final(self).counter == 0
                &&& final(self).invoices@ == old(self).invoices@
                &&& final(self).listings@ == old(self).listings@
            },
    {
        if self.admin.is_some() {
            return Err(Error::AlreadyInitialized);
        }
        self.admin = Some(admin);
        self.counter = 0;
        Ok(())
    }

    /// Mints a new invoice for `seller` against debtor `buyer`: allocates the
    /// next id, stores a Pending invoice created at `now` and held by the
    /// seller, and returns the id.
    pub fn mint(
        &mut self,
        signers: &Vec<u64>,
        seller: u64,
        buyer: u64,
        amount: i128,
        due_date: u64,
        now: u64,
    ) -> (r: Result<u64, Error>)
        requires
            old(self).wf(),
            old(self).counter < u64::MAX,
        ensures
            final(self).wf(),
            final(self).admin == old(self).admin,
            (match old(self).mint_check(signers@, seller) {
                Some(e) => r == Err::<u64, Error>(e) && *final(self) == *old(self),
                None => {
                    &&& r == Ok::<u64, Error>((old(self).counter + 1) as u64)
                    &&& final(self).counter == old(self).counter + 1
                    &&& final(self).invoices@ == old(self).invoices@.push(
                        (Invoice {
                            id: (old(self).counter + 1) as u64,
                            seller,
                            buyer,
                            amount,
                            due_date,
                            status: InvoiceStatus::Pending,
                            created_at: now,
                            verified_at: 0,
                            listing_price: 0,
                            current_holder: seller,
                        }),
                    )
                    &&& final(self).listings@ == old(self).listings@.push(None)
                },
            }),
            forall|j: int|
                0 <= j < old(self).invoices@.len() ==> #[trigger] advances(
                    old(self).invoices@[j].status,
                    final(self).invoices@[j].status,
                ),
    {
        match require_auth(signers, seller) {
            Err(e) => {
                return Err(e);
            },
            Ok(()) => {},
        }
        let id = self.counter + 1;
        let invoice = Invoice {
            id,
            seller,
            buyer,
            amount,
            due_date,
            status: InvoiceStatus::Pending,
            created_at: now,
            verified_at: 0,
            listing_price: 0,
            current_holder: seller,
        };
        self.invoices.push(invoice);
        self.listings.push(None);
        self.counter = id;
        Ok(id)
    }

    /// Store lookup: the index of the invoice with id `invoice_id`, if one is
    /// stored.
    fn lookup(&self, invoice_id: u64) -> (r: Option<usize>)
        requires
            self.wf(),
        ensures
            (match r {
                Some(idx) => self.has_invoice(invoice_id) && idx as int == invoice_id - 1,
                None => !self.has_invoice(invoice_id),
            }),
    {
        let n: usize = self.invoices.len();
        if invoice_id < 1 || invoice_id > (n as u64) {
            None
        } else {
            Some((invoice_id - 1) as usize)
        }
    }

    /// The designated debtor confirms the invoice: Pending -> Verified, with
    /// the verification timestamp recorded. Only that debtor may verify, and
    /// only from Pending.
    pub fn verify(&mut self, signers: &Vec<u64>, invoice_id: u64, buyer: u64, now: u64) -> (r:
        Result<bool, Error>)
        requires
            old(self).wf(),
        ensures
            final(self).wf(),
            final(self).admin == old(self).admin,
            final(self).counter == old(self).counter,
            (match old(self).verify_check(signers@, invoice_id, buyer) {
                Some(e) => r == Err::<bool, Error>(e) && *final(self) == *old(self),
                None => {
                    &&& r == Ok::<bool, Error>(true)
                    &&& final(self).invoices@ == old(self).invoices@.update(
                        invoice_id - 1,
                        (Invoice {
                            status: InvoiceStatus::Verified,
                            verified_at: now,
                            ..old(self).invoice_at(invoice_id)
                        }),
                    )
                    &&& final(self).listings@ == old(self).listings@
                },
            }),
            forall|j: int|
                0 <= j < old(self).invoices@.len() ==> #[trigger] advances(
                    old(self).invoices@[j].status,
                    final(self).invoices@[j].status,
                ),
    {
        match require_auth(signers, buyer) {
            Err(e) => {
                return Err(e);
            },
            Ok(()) => {},
        }
        let idx = match self.lookup(invoice_id) {
            None => {
                return Err(Error::NotFound);
            },
            Some(idx) => idx,
        };
        let inv = self.invoices[idx];
        if inv.buyer != buyer {
            return Err(Error::AuthorizationFailure);
        }
        if inv.status != InvoiceStatus::Pending {
            return Err(Error::InvalidStateTransition);
        }
        let mut updated = inv;
        updated.status = InvoiceStatus::Verified;
        updated.verified_at = now;
        self.invoices[idx] = updated;
        Ok(true)
    }

    /// The current holder puts the invoice up for sale: Verified -> Listed,
    /// with the price recorded on the invoice and an active listing stored
    /// under its id. Only the current holder may list, and only from
    /// Verified.
    pub fn list(&mut self, signers: &Vec<u64>, invoice_id: u64, seller: u64, price: i128, now: u64)
        -> (r: Result<bool, Error>)
        requires
            old(self).wf(),
        ensures
            final(self).wf(),
            final(self).admin == old(self).admin,
            final(self).counter == old(self).counter,
            (match old(self).list_check(signers@, invoice_id, seller) {
                Some(e) => r == Err::<bool, Error>(e) && *final(self) == *old(self),
                None => {
                    &&& r == Ok::<bool, Error>(true)
                    &&& final(self).invoices@ == old(self).invoices@.update(
                        invoice_id - 1,
                        (Invoice {
                            status: InvoiceStatus::Listed,
                            listing_price: price,
                            ..old(self).invoice_at(invoice_id)
                        }),
                    )
                    &&& final(self).listings@ == old(self).listings@.update(
                        invoice_id - 1,
                        Some((Listing { invoice_id, seller, price, listed_at: now })),
                    )
                },
            }),
            forall|j: int|
                0 <= j < old(self).invoices@.len() ==> #[trigger] advances(
                    old(self).invoices@[j].status,
                    final(self).invoices@[j].status,
                ),
    {
        match require_auth(signers, seller) {
            Err(e) => {
                return Err(e);
            },
            Ok(()) => {},
        }
        let idx = match self.lookup(invoice_id) {
            None => {
                return Err(Error::NotFound);
            },
            Some(idx) => idx,
        };
        let inv = self.invoices[idx];
        if inv.current_holder != seller {
            return Err(Error::AuthorizationFailure);
        }
        if inv.status != InvoiceStatus::Verified {
            return Err(Error::InvalidStateTransition);
        }
        let mut updated = inv;
        updated.status = InvoiceStatus::Listed;
        updated.listing_price = price;
        self.invoices[idx] = updated;
        self.listings[idx] = Some(Listing { invoice_id, seller, price, listed_at: now });
        Ok(true)
    }

    /// A purchase: the buyer pays the listing price to the listing's seller,
    /// the invoice moves Listed -> Sold with the buyer as the new holder, and
    /// the listing is removed — all in one transaction. The returned payment
    /// instruction moves exactly the listing price from the buyer to the
    /// prior holder; the host executes it atomically with this state change.
    pub fn buy(&mut self, signers: &Vec<u64>, invoice_id: u64, buyer: u64, payment_token: u64) -> (r:
        Result<Payment, Error>)
        requires
            old(self).wf(),
        ensures
            final(self).wf(),
            final(self).admin == old(self).admin,
            final(self).counter == old(self).counter,
            (match old(self).buy_check(signers@, invoice_id, buyer) {
                Some(e) => r == Err::<Payment, Error>(e) && *final(self) == *old(self),
                None => {
                    &&& old(self).listing_at(invoice_id) matches Some(l)
                    &&& r == Ok::<Payment, Error>(
                        (Payment { token: payment_token, from: buyer, to: l.seller, amount: l.price }),
                    )
                    &&& l.seller == old(self).invoice_at(invoice_id).current_holder
                    &&& l.price == old(self).invoice_at(invoice_id).listing_price
                    &&& final(self).invoices@ == old(self).invoices@.update(
                        invoice_id - 1,
                        (Invoice {
                            status: InvoiceStatus::Sold,
                            current_holder: buyer,
                            ..old(self).invoice_at(invoice_id)
                        }),
                    )
                    &&& final(self).listings@ == old(self).listings@.update(
                        invoice_id - 1,
                        None::<Listing>,
                    )
                },
            }),
            forall|j: int|
                0 <= j < old(self).invoices@.len() ==> #[trigger] advances(
                    old(self).invoices@[j].status,
                    final(self).invoices@[j].status,
                ),
    {
        match require_auth(signers, buyer) {
            Err(e) => {
                return Err(e);
            },
            Ok(()) => {},
        }
        let idx = match self.lookup(invoice_id) {
            None => {
                return Err(Error::NotFound);
            },
            Some(idx) => idx,
        };
        let inv = self.invoices[idx];
        let listing = match self.listings[idx] {
            None => {
                return Err(Error::NotFound);
            },
            Some(listing) => listing,
        };
        if inv.status != InvoiceStatus::Listed {
            return Err(Error::InvalidStateTransition);
        }
        let mut updated = inv;
        updated.status = InvoiceStatus::Sold;
        updated.current_holder = buyer;
        self.invoices[idx] = updated;
        self.listings[idx] = None;
        Ok(Payment { token: payment_token, from: buyer, to: listing.seller, amount: listing.price })
    }

    /// Settlement: after the due date, the original debtor pays the invoice
    /// amount to the current holder and the invoice moves Sold -> Settled,
    /// its terminal status. The returned payment instruction moves exactly
    /// the invoice amount from the debtor to the holder.
    pub fn settle(
        &mut self,
        signers: &Vec<u64>,
        invoice_id: u64,
        payer: u64,
        payment_token: u64,
        now: u64,
    ) -> (r: Result<Payment, Error>)
        requires
            old(self).wf(),
        ensures
            final(self).wf(),
            final(self).admin == old(self).admin,
            final(self).counter == old(self).counter,
            (match old(self).settle_check(signers@, invoice_id, payer, now) {
                Some(e) => r == Err::<Payment, Error>(e) && *final(self) == *old(self),
                None => {
                    &&& r == Ok::<Payment, Error>(
                        (Payment {
                            token: payment_token,
                            from: payer,
                            to: old(self).invoice_at(invoice_id).current_holder,
                            amount: old(self).invoice_at(invoice_id).amount,
                        }),
                    )
                    &&& final(self).invoices@ == old(self).invoices@.update(
                        invoice_id - 1,
                        (Invoice {
                            status: InvoiceStatus::Settled,
                            ..old(self).invoice_at(invoice_id)
                        }),
                    )
                    &&& final(self).listings@ == old(self).listings@
                },
            }),
            r is Ok ==> now >= old(self).invoice_at(invoice_id).due_date
                && payer == old(self).invoice_at(invoice_id).buyer,
            forall|j: int|
                0 <= j < old(self).invoices@.len() ==> #[trigger] advances(
                    old(self).invoices@[j].status,
                    final(self).invoices@[j].status,
                ),
    {
        match require_auth(signers, payer) {
            Err(e) => {
                return Err(e);
            },
            Ok(()) => {},
        }
        let idx = match self.lookup(invoice_id) {
            None => {
                return Err(Error::NotFound);
            },
            Some(idx) => idx,
        };
        let inv = self.invoices[idx];
        if inv.buyer != payer {
            return Err(Error::AuthorizationFailure);
        }
        if inv.status != InvoiceStatus::Sold {
            return Err(Error::InvalidStateTransition);
        }
        if now < inv.due_date {
            return Err(Error::NotYetDue);
        }
        let mut updated = inv;
        updated.status = InvoiceStatus::Settled;
        self.invoices[idx] = updated;
        Ok(Payment { token: payment_token, from: payer, to: inv.current_holder, amount: inv.amount })
    }

    /// The stored invoice under `invoice_id`, or `NotFound`.
    pub fn get_invoice(&self, invoice_id: u64) -> (r: Result<Invoice, Error>)
        requires
            self.wf(),
        ensures
            self.has_invoice(invoice_id) ==> r == Ok::<Invoice, Error>(self.invoice_at(invoice_id)),
            !self.has_invoice(invoice_id) ==> r == Err::<Invoice, Error>(Error::NotFound),
    {
        let idx = match self.lookup(invoice_id) {
            None => {
                return Err(Error::NotFound);
            },
            Some(idx) => idx,
        };
        Ok(self.invoices[idx])
    }

    /// The active listing under `invoice_id`, or `NotFound`. In a well-formed
    /// state this succeeds exactly when the invoice exists and is Listed.
    pub fn get_listing(&self, invoice_id: u64) -> (r: Result<Listing, Error>)
        requires
            self.wf(),
        ensures
            (match r {
                Ok(l) => self.has_invoice(invoice_id) && self.listing_at(invoice_id) == Some(l),
                Err(e) => e == Error::NotFound && (!self.has_invoice(invoice_id)
                    || self.listing_at(invoice_id) is None),
            }),
            r is Ok <==> (self.has_invoice(invoice_id) && self.invoice_at(invoice_id).status
                is Listed),
    {
        let idx = match self.lookup(invoice_id) {
            None => {
                return Err(Error::NotFound);
            },
            Some(idx) => idx,
        };
        match self.listings[idx] {
            None => Err(Error::NotFound),
            Some(listing) => Ok(listing),
        }
    }

    /// Every stored invoice that `who` minted or currently holds, in id
    /// order.
    pub fn get_invoices_by_seller(&self, seller: u64) -> (r: Vec<Invoice>)
        requires
            self.wf(),
        ensures
            r@ == invoices_of(self.invoices@, seller),
    {
        let n: usize = self.invoices.len();
        let mut result: Vec<Invoice> = Vec::new();
        let mut i: usize = 0;
        while i < n
            invariant
                self.wf(),
                n == self.invoices@.len(),
                i <= n,
                result@ == invoices_of(self.invoices@.take(i as int), seller),
            decreases n - i,
        {
            let inv = self.invoices[i];
            proof {
                lemma_invoices_of_take_step(self.invoices@, seller, i as int);
            }
            if inv.seller == seller || inv.current_holder == seller {
                let ghost prefix = result@;
                result.push(inv);
                proof {
                    assert(result@ =~= prefix + seq![inv]);
                }
            }
            i = i + 1;
        }
        proof {
            assert(self.invoices@.take(n as int) =~= self.invoices@);
        }
        result
    }

    /// Every active listing, in id order.
    pub fn get_all_listings(&self) -> (r: Vec<Listing>)
        requires
            self.wf(),
        ensures
            r@ == active_listings(self.listings@),
    {
        let n: usize = self.listings.len();
        let mut result: Vec<Listing> = Vec::new();
        let mut i: usize = 0;
        while i < n
            invariant
                self.wf(),
                n == self.listings@.len(),
                i <= n,
                result@ == active_listings(self.listings@.take(i as int)),
            decreases n - i,
        {
            proof {
                lemma_active_listings_take_step(self.listings@, i as int);
            }
            match self.listings[i] {
                None => {},
                Some(listing) => {
                    let ghost prefix = result@;
                    result.push(listing);
                    proof {
                        assert(result@ =~= prefix + seq![listing]);
                    }
                },
            }
            i = i + 1;
        }
        proof {
            assert(self.listings@.take(n as int) =~= self.listings@);
        }
        result
    }

    /// The current sequence counter: the number of invoices ever minted,
    /// 0 before the first mint.
    pub fn get_invoice_count(&self) -> (r: u64)
        ensures
            r == self.counter,
            self.wf() ==> r as int == self.invoices@.len(),
    {
        self.counter
    }
}

/// Whether `who` is the original seller or the current holder of `inv`.
pub open spec fn involves(inv: Invoice, who: u64) -> bool {
    inv.seller == who || inv.current_holder == who
}

/// The subsequence of `s` whose invoices `who` minted or currently holds, in
/// store order.
pub open spec fn invoices_of(s: Seq<Invoice>, who: u64) -> Seq<Invoice>
    decreases s.len(),
{
    if s.len() == 0 {
        Seq::empty()
    } else if involves(s.last(), who) {
        invoices_of(s.drop_last(), who) + seq![s.last()]
    } else {
        invoices_of(s.drop_last(), who)
    }
}

/// The sequence of listings present in `s`, in store order.
pub open spec fn active_listings(s: Seq<Option<Listing>>) -> Seq<Listing>
    decreases s.len(),
{
    if s.len() == 0 {
        Seq::empty()
    } else {
        (match s.last() {
            Some(l) => active_listings(s.drop_last()) + seq![l],
            None => active_listings(s.drop_last()),
        })
    }
}

/// Extending the scanned prefix by one invoice extends its projection by that
/// invoice exactly when it involves `who`.
proof fn lemma_invoices_of_take_step(s: Seq<Invoice>, who: u64, i: int)
    requires
        0 <= i < s.len(),
    ensures
        involves(s[i], who) ==> invoices_of(s.take(i + 1), who) == invoices_of(s.take(i), who)
            + seq![s[i]],
        !involves(s[i], who) ==> invoices_of(s.take(i + 1), who) == invoices_of(s.take(i), who),
{
    assert(s.take(i + 1).drop_last() =~= s.take(i));
    assert(s.take(i + 1).last() == s[i]);
}

/// Invoice ids are unique and strictly increasing starting at 1, and the
/// sequence counter equals the number of invoices ever minted.
pub proof fn lemma_ids_strictly_increasing(s: UISPContract)
    requires
        s.wf(),
    ensures
        forall|i: int, j: int|
            0 <= i < j < s.invoices@.len() ==> (#[trigger] s.invoices@[i]).id < (
            #[trigger] s.invoices@[j]).id,
        s.invoices@.len() > 0 ==> s.invoices@[0].id == 1,
        s.counter as int == s.invoices@.len(),
{
}

/// A listing is stored for an id exactly when that invoice's status is
/// Listed, and then it carries the invoice's listing price and names the
/// current holder as its seller.
pub proof fn lemma_listing_iff_listed(s: UISPContract, invoice_id: u64)
    requires
        s.wf(),
        s.has_invoice(invoice_id),
    ensures
        s.listing_at(invoice_id) is Some <==> s.invoice_at(invoice_id).status is Listed,
        s.listing_at(invoice_id) matches Some(l) ==> l.invoice_id == invoice_id && l.price
            == s.invoice_at(invoice_id).listing_price && l.seller == s.invoice_at(
            invoice_id,
        ).current_holder,
{
}

/// Settlement never succeeds before the due date; and when every check ahead
/// of the due-date check passes, the reported failure is exactly `NotYetDue`.
pub proof fn lemma_not_due_never_settles(
    s: UISPContract,
    signers: Seq<u64>,
    invoice_id: u64,
    payer: u64,
    now: u64,
)
    requires
        s.wf(),
        s.has_invoice(invoice_id) ==> now < s.invoice_at(invoice_id).due_date,
    ensures
        s.settle_check(signers, invoice_id, payer, now) is Some,
        (signers.contains(payer) && s.has_invoice(invoice_id) && s.invoice_at(invoice_id).buyer
            == payer && s.invoice_at(invoice_id).status is Sold) ==> s.settle_check(
            signers,
            invoice_id,
            payer,
            now,
        ) == Some(Error::NotYetDue),
{
}

/// From the wrong predecessor status the lifecycle rejects the operation:
/// verifying a non-Pending invoice (an already-Verified one among them) and
/// listing a non-Verified one both fail as illegal transitions.
pub proof fn lemma_illegal_transitions(
    s: UISPContract,
    signers: Seq<u64>,
    invoice_id: u64,
    who: u64,
)
    requires
        s.wf(),
        s.has_invoice(invoice_id),
        signers.contains(who),
    ensures
        s.invoice_at(invoice_id).buyer == who && !(s.invoice_at(invoice_id).status is Pending)
            ==> s.verify_check(signers, invoice_id, who) == Some(Error::InvalidStateTransition),
        s.invoice_at(invoice_id).current_holder == who && !(s.invoice_at(invoice_id).status
            is Verified) ==> s.list_check(signers, invoice_id, who) == Some(
            Error::InvalidStateTransition,
        ),
{
}

/// A settled invoice is terminal: no lifecycle operation succeeds on it
/// again; in particular a second settlement attempt by the debtor fails as an
/// illegal transition.
pub proof fn lemma_settled_is_terminal(
    s: UISPContract,
    signers: Seq<u64>,
    invoice_id: u64,
    who: u64,
    now: u64,
)
    requires
        s.wf(),
        s.has_invoice(invoice_id),
        s.invoice_at(invoice_id).status is Settled,
    ensures
        s.verify_check(signers, invoice_id, who) is Some,
        s.list_check(signers, invoice_id, who) is Some,
        s.buy_check(signers, invoice_id, who) is Some,
        s.settle_check(signers, invoice_id, who, now) is Some,
        signers.contains(who) && s.invoice_at(invoice_id).buyer == who ==> s.settle_check(
            signers,
            invoice_id,
            who,
            now,
        ) == Some(Error::InvalidStateTransition),
{
}

/// Extending the scanned prefix by one slot extends its active listings by
/// that slot's listing exactly when one is present.
proof fn lemma_active_listings_take_step(s: Seq<Option<Listing>>, i: int)
    requires
        0 <= i < s.len(),
    ensures
        (s[i] matches Some(l) ==> active_listings(s.take(i + 1)) == active_listings(s.take(i))
            + seq![l]),
        s[i] is None ==> active_listings(s.take(i + 1)) == active_listings(s.take(i)),
{
    assert(s.take(i + 1).drop_last() =~= s.take(i));
    assert(s.take(i + 1).last() == s[i]);
}

} // verus!
