//! The read-only queries: single accounts, listings, and the transfer and
//! payment histories, presented for display.
//!
//! No query mutates the ledger. Rows are stored in id order, so every
//! listing comes back ordered by id ascending. A history query for an
//! unknown customer answers `NotFound`, never an empty listing, so "no such
//! customer" and "no history" stay distinguishable.

use vstd::prelude::*;
use crate::errors::LedgerError;
use crate::models::{Customer, Payment, Transfer, TransferHuman};
use crate::ledger::{Ledger, transfer_wf};

verus! {

/// `h` presents the stored transfer `t` in an outgoing listing: the
/// receiving counterparty named, the sender's name left empty.
pub open spec fn presents_outgoing(h: TransferHuman, t: Transfer, customers: Seq<Customer>) -> bool {
    &&& h.id == t.id->0
    &&& h.created_at == t.created_at->0
    &&& h.name_from@ == Seq::<char>::empty()
    &&& h.name_to == customers[t.id_to - 1].name
    &&& h.amount == t.amount
}

/// `h` presents the stored transfer `t` in the global feed: both
/// counterparties named.
pub open spec fn presents_full(h: TransferHuman, t: Transfer, customers: Seq<Customer>) -> bool {
    &&& h.id == t.id->0
    &&& h.created_at == t.created_at->0
    &&& h.name_from == customers[t.id_from - 1].name
    &&& h.name_to == customers[t.id_to - 1].name
    &&& h.amount == t.amount
}

/// `r` is the outgoing listing of account `id`: exactly the transfers sent
/// by `id`, in stored order, each presented by [`presents_outgoing`].
pub open spec fn outgoing_listing(
    r: Seq<TransferHuman>,
    transfers: Seq<Transfer>,
    customers: Seq<Customer>,
    id: u16,
) -> bool
    decreases transfers.len(),
{
    if transfers.len() == 0 {
        r.len() == 0
    } else if transfers.last().id_from == id {
        &&& r.len() > 0
        &&& presents_outgoing(r.last(), transfers.last(), customers)
        &&& outgoing_listing(r.drop_last(), transfers.drop_last(), customers, id)
    } else {
        outgoing_listing(r, transfers.drop_last(), customers, id)
    }
}

/// `r` is the payment history of account `id`: exactly the stored payments
/// whose customer is `id`, in stored order.
pub open spec fn payment_listing(r: Seq<Payment>, payments: Seq<Payment>, id: u16) -> bool
    decreases payments.len(),
{
    if payments.len() == 0 {
        r.len() == 0
    } else if payments.last().customer_id == Some(id) {
        &&& r.len() > 0
        &&& r.last() == payments.last()
        &&& payment_listing(r.drop_last(), payments.drop_last(), id)
    } else {
        payment_listing(r, payments.drop_last(), id)
    }
}

impl Ledger {
    /// How many accounts exist.
    pub fn customer_count(&self) -> (n: usize)
        ensures
            n == self@.customers.len(),
    {
        self.customers.len()
    }

    /// How many transfer records the log holds.
    pub fn transfer_count(&self) -> (n: usize)
        ensures
            n == self@.transfers.len(),
    {
        self.transfers.len()
    }

    /// How many payment records the log holds.
    pub fn payment_count(&self) -> (n: usize)
        ensures
            n == self@.payments.len(),
    {
        self.payments.len()
    }

    /// The account named `id`, or `NotFound` when there is none.
    pub fn get_customer(&self, id: u16) -> (r: Result<Customer, LedgerError>)
        ensures
            (match r {
                Ok(c) => self@.has_acct(id) && c == self@.acct(id),
                Err(e) => !self@.has_acct(id) && e == LedgerError::NotFound(id),
            }),
    {
        if self.has_account(id) {
            let idx: usize = (id - 1) as usize;
            Ok(self.customers[idx].clone())
        } else {
            Err(LedgerError::NotFound(id))
        }
    }

    /// Every account, ordered by id ascending.
    pub fn get_all_customers(&self) -> (r: Vec<Customer>)
        ensures
            r@ == self@.customers,
    {
        let mut out: Vec<Customer> = Vec::new();
        let mut i: usize = 0;
        while i < self.customers.len()
            invariant
                i <= self.customers.len(),
                out@ == self@.customers.take(i as int),
            decreases self.customers.len() - i,
        {
            out.push(self.customers[i].clone());
            proof {
                assert(out@ =~= self@.customers.take(i + 1));
            }
            i += 1;
        }
        proof {
            assert(self@.customers.take(self@.customers.len() as int) =~= self@.customers);
        }
        out
    }

    /// The transfers sent by account `id`, ordered by id ascending, each with
    /// the receiver's name filled in; `NotFound` when the account does not
    /// exist.
    pub fn get_transfers_by_customer(&self, id: u16) -> (r: Result<Vec<TransferHuman>, LedgerError>)
        requires
            self@.wf(),
        ensures
            (match r {
                Ok(v) => self@.has_acct(id) && outgoing_listing(
                    v@,
                    self@.transfers,
                    self@.customers,
                    id,
                ),
                Err(e) => !self@.has_acct(id) && e == LedgerError::NotFound(id),
            }),
    {
        if !self.has_account(id) {
            return Err(LedgerError::NotFound(id));
        }
        let mut out: Vec<TransferHuman> = Vec::new();
        let mut i: usize = 0;
        while i < self.transfers.len()
            invariant
                self@.wf(),
                i <= self.transfers.len(),
                outgoing_listing(out@, self@.transfers.take(i as int), self@.customers, id),
            decreases self.transfers.len() - i,
        {
            proof {
                assert(transfer_wf(self@.transfers[i as int], i as int, self@.customers.len() as int));
                assert(self@.transfers.take(i + 1).drop_last() =~= self@.transfers.take(i as int));
                assert(self@.transfers.take(i + 1).last() == self@.transfers[i as int]);
            }
            let ghost pre = out@;
            let t = &self.transfers[i];
            if t.id_from == id {
                let to_idx: usize = (t.id_to - 1) as usize;
                let h = TransferHuman {
                    id: t.id.unwrap(),
                    name_from: String::new(),
                    name_to: self.customers[to_idx].name.clone(),
                    amount: t.amount,
                    created_at: t.created_at.as_ref().unwrap().clone(),
                };
                out.push(h);
                proof {
                    assert(out@.drop_last() =~= pre);
                    assert(presents_outgoing(out@.last(), self@.transfers[i as int], self@.customers));
                    assert(outgoing_listing(out@, self@.transfers.take(i + 1), self@.customers, id));
                }
            } else {
                proof {
                    assert(outgoing_listing(out@, self@.transfers.take(i + 1), self@.customers, id));
                }
            }
            i += 1;
        }
        proof {
            assert(self@.transfers.take(self@.transfers.len() as int) =~= self@.transfers);
        }
        Ok(out)
    }

    /// Every transfer, ordered by id ascending, with both counterparties'
    /// names filled in.
    pub fn get_all_transfers(&self) -> (r: Vec<TransferHuman>)
        requires
            self@.wf(),
        ensures
            r@.len() == self@.transfers.len(),
            forall|i: int|
                0 <= i < r@.len() ==> presents_full(
                    #[trigger] r@[i],
                    self@.transfers[i],
                    self@.customers,
                ),
    {
        let mut out: Vec<TransferHuman> = Vec::new();
        let mut i: usize = 0;
        while i < self.transfers.len()
            invariant
                self@.wf(),
                i <= self.transfers.len(),
                out@.len() == i,
                forall|j: int|
                    0 <= j < i ==> presents_full(
                        #[trigger] out@[j],
                        self@.transfers[j],
                        self@.customers,
                    ),
            decreases self.transfers.len() - i,
        {
            proof {
                assert(transfer_wf(self@.transfers[i as int], i as int, self@.customers.len() as int));
            }
            let t = &self.transfers[i];
            let from_idx: usize = (t.id_from - 1) as usize;
            let to_idx: usize = (t.id_to - 1) as usize;
            let h = TransferHuman {
                id: t.id.unwrap(),
                name_from: self.customers[from_idx].name.clone(),
                name_to: self.customers[to_idx].name.clone(),
                amount: t.amount,
                created_at: t.created_at.as_ref().unwrap().clone(),
            };
            out.push(h);
            i += 1;
        }
        out
    }

    /// The payments made by account `id`, ordered by id ascending;
    /// `NotFound` when the account does not exist.
    pub fn get_payments_by_customer(&self, id: u16) -> (r: Result<Vec<Payment>, LedgerError>)
        requires
            self@.wf(),
        ensures
            (match r {
                Ok(v) => self@.has_acct(id) && payment_listing(v@, self@.payments, id),
                Err(e) => !self@.has_acct(id) && e == LedgerError::NotFound(id),
            }),
    {
        if !self.has_account(id) {
            return Err(LedgerError::NotFound(id));
        }
        let mut out: Vec<Payment> = Vec::new();
        let mut i: usize = 0;
        while i < self.payments.len()
            invariant
                i <= self.payments.len(),
                payment_listing(out@, self@.payments.take(i as int), id),
            decreases self.payments.len() - i,
        {
            proof {
                assert(self@.payments.take(i + 1).drop_last() =~= self@.payments.take(i as int));
                assert(self@.payments.take(i + 1).last() == self@.payments[i as int]);
            }
            let ghost pre = out@;
            let matches_id = match self.payments[i].customer_id {
                Some(cid) => cid == id,
                None => false,
            };
            if matches_id {
                out.push(self.payments[i].clone());
                proof {
                    assert(out@.drop_last() =~= pre);
                    assert(payment_listing(out@, self@.payments.take(i + 1), id));
                }
            } else {
                proof {
                    assert(payment_listing(out@, self@.payments.take(i + 1), id));
                }
            }
            i += 1;
        }
        proof {
            assert(self@.payments.take(self@.payments.len() as int) =~= self@.payments);
        }
        Ok(out)
    }
}

} // verus!
