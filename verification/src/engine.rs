//! The mutating operations of the ledger: account creation and maintenance,
//! cash movements, transfers, and payments.
//!
//! Each operation validates its inputs, then commits every effect — balance
//! writes and the log append — in the same call, or returns the error its
//! *check* spec function names and leaves the ledger exactly as it was.
//! The `*_now` variants stamp the new row with the current wall-clock time;
//! their contracts promise everything but the timestamp's value.

use vstd::prelude::*;
use crate::clock::now_rfc2822;
use crate::errors::{Field, LedgerError};
use crate::models::{Customer, CustomerEdit, Money, Payment, Transfer, name_is_valid};
use crate::ledger::{
    Ledger, append_payment_apply, append_payment_check, append_transfer_apply,
    append_transfer_check, create_customer_apply,
    create_customer_check, create_payment_apply, create_payment_check, created_customer,
    cust_wf, customer_fields_check, deposit_apply, deposit_check, payment_record,
    payment_request_check, rename_apply, rename_check, transfer_apply, transfer_check,
    transfer_record, update_balance_check, with_balance, withdraw_apply, withdraw_check,
};
use crate::laws::{
    lemma_append_payment_preserves_wf, lemma_append_transfer_preserves_wf, lemma_create_customer_preserves_wf,
    lemma_create_payment_preserves_wf, lemma_deposit_preserves_wf, lemma_rename_preserves_wf,
    lemma_transfer_preserves_wf, lemma_update_balance_preserves_wf, lemma_withdraw_preserves_wf,
};

verus! {

impl Ledger {
    /// Creates an account from a request that already carries its creation
    /// timestamp, and returns the new account's id — the next id in order of
    /// creation.
    pub fn create_customer(&mut self, customer: Customer) -> (r: Result<u16, LedgerError>)
        requires
            old(self)@.wf(),
            old(self)@.customers.len() < 0xFFFF,
        ensures
            final(self)@.wf(),
            (match create_customer_check(customer) {
                Ok(()) => r == Ok::<u16, LedgerError>((old(self)@.customers.len() + 1) as u16)
                    && final(self)@ == create_customer_apply(old(self)@, customer),
                Err(e) => r == Err::<u16, LedgerError>(e) && final(self)@ == old(self)@,
            }),
    {
        if !name_is_valid(customer.name.as_str()) {
            return Err(LedgerError::ValidationError(Field::Name));
        }
        let balance: i64 = match customer.balance {
            Some(b) => {
                if b < 0 {
                    return Err(LedgerError::ValidationError(Field::Balance));
                }
                b
            },
            None => 0,
        };
        if customer.created_at.is_none() {
            return Err(LedgerError::ValidationError(Field::CreatedAt));
        }
        let id = (self.customers.len() + 1) as u16;
        let c = Customer { id: Some(id), balance: Some(balance), ..customer };
        proof {
            lemma_create_customer_preserves_wf(old(self)@, customer);
            assert(c =~= created_customer(old(self)@, customer));
        }
        self.customers.push(c);
        proof {
            assert(self@ =~= create_customer_apply(old(self)@, customer));
        }
        Ok(id)
    }

    /// Creates an account stamped with the current time, and returns the new
    /// account's id.
    pub fn create_customer_now(&mut self, customer: Customer) -> (r: Result<u16, LedgerError>)
        requires
            old(self)@.wf(),
            old(self)@.customers.len() < 0xFFFF,
        ensures
            final(self)@.wf(),
            (match customer_fields_check(customer) {
                Ok(()) => r == Ok::<u16, LedgerError>((old(self)@.customers.len() + 1) as u16)
                    && (exists|ts: String|
                    final(self)@ == create_customer_apply(
                        old(self)@,
                        (Customer { created_at: Some(ts), ..customer }),
                    )),
                Err(e) => r == Err::<u16, LedgerError>(e) && final(self)@ == old(self)@,
            }),
    {
        let ts = now_rfc2822();
        let ghost gts = ts;
        let stamped = Customer { created_at: Some(ts), ..customer };
        let r = self.create_customer(stamped);
        proof {
            if customer_fields_check(customer) is Ok {
                assert(self@ == create_customer_apply(
                    old(self)@,
                    Customer { created_at: Some(gts), ..customer },
                ));
            }
        }
        r
    }

    /// Writes a balance directly, as one step of a larger atomic unit; the
    /// new balance must keep the non-negativity invariant.
    pub fn update_balance(&mut self, id: u16, balance: i64) -> (r: Result<(), LedgerError>)
        requires
            old(self)@.wf(),
        ensures
            final(self)@.wf(),
            (match update_balance_check(old(self)@, id, balance) {
                Ok(()) => r == Ok::<(), LedgerError>(()) && final(self)@ == with_balance(
                    old(self)@,
                    id,
                    balance,
                ),
                Err(e) => r == Err::<(), LedgerError>(e) && final(self)@ == old(self)@,
            }),
    {
        if !self.has_account(id) {
            return Err(LedgerError::NotFound(id));
        }
        if balance < 0 {
            return Err(LedgerError::ValidationError(Field::Balance));
        }
        let idx: usize = (id - 1) as usize;
        self.customers[idx].balance = Some(balance);
        proof {
            lemma_update_balance_preserves_wf(old(self)@, id, balance);
            assert(self@.customers =~= with_balance(old(self)@, id, balance).customers);
            assert(self@ =~= with_balance(old(self)@, id, balance));
        }
        Ok(())
    }

    /// Renames an account.
    pub fn edit_customer(&mut self, id: u16, customer: CustomerEdit) -> (r: Result<
        (),
        LedgerError,
    >)
        requires
            old(self)@.wf(),
        ensures
            final(self)@.wf(),
            (match rename_check(old(self)@, id, customer.name@) {
                Ok(()) => r == Ok::<(), LedgerError>(()) && final(self)@ == rename_apply(
                    old(self)@,
                    id,
                    customer.name,
                ),
                Err(e) => r == Err::<(), LedgerError>(e) && final(self)@ == old(self)@,
            }),
    {
        if !self.has_account(id) {
            return Err(LedgerError::NotFound(id));
        }
        if !name_is_valid(customer.name.as_str()) {
            return Err(LedgerError::ValidationError(Field::Name));
        }
        let idx: usize = (id - 1) as usize;
        proof {
            lemma_rename_preserves_wf(old(self)@, id, customer.name);
        }
        self.customers[idx].name = customer.name;
        proof {
            assert(self@.customers =~= rename_apply(old(self)@, id, customer.name).customers);
            assert(self@ =~= rename_apply(old(self)@, id, customer.name));
        }
        Ok(())
    }

    /// Deposits cash into an account: the credit is the only effect, and it
    /// commits in this call.
    pub fn deposit(&mut self, id: u16, money: Money) -> (r: Result<(), LedgerError>)
        requires
            old(self)@.wf(),
        ensures
            final(self)@.wf(),
            (match deposit_check(old(self)@, id, money.amount) {
                Ok(()) => r == Ok::<(), LedgerError>(()) && final(self)@ == deposit_apply(
                    old(self)@,
                    id,
                    money.amount,
                ),
                Err(e) => r == Err::<(), LedgerError>(e) && final(self)@ == old(self)@,
            }),
    {
        if money.amount <= 0 {
            return Err(LedgerError::ValidationError(Field::Amount));
        }
        if !self.has_account(id) {
            return Err(LedgerError::NotFound(id));
        }
        let idx: usize = (id - 1) as usize;
        proof {
            assert(cust_wf(old(self)@.customers[id - 1], id - 1));
        }
        let bal = self.customers[idx].balance.unwrap();
        if bal > i64::MAX - money.amount {
            return Err(LedgerError::ValidationError(Field::Amount));
        }
        self.customers[idx].balance = Some(bal + money.amount);
        proof {
            lemma_deposit_preserves_wf(old(self)@, id, money.amount);
            assert(self@.customers =~= deposit_apply(old(self)@, id, money.amount).customers);
            assert(self@ =~= deposit_apply(old(self)@, id, money.amount));
        }
        Ok(())
    }

    /// Withdraws cash from an account: rejected when the debit exceeds the
    /// balance, so the balance can reach zero but never pass it.
    pub fn withdraw(&mut self, id: u16, money: Money) -> (r: Result<(), LedgerError>)
        requires
            old(self)@.wf(),
        ensures
            final(self)@.wf(),
            (match withdraw_check(old(self)@, id, money.amount) {
                Ok(()) => r == Ok::<(), LedgerError>(()) && final(self)@ == withdraw_apply(
                    old(self)@,
                    id,
                    money.amount,
                ),
                Err(e) => r == Err::<(), LedgerError>(e) && final(self)@ == old(self)@,
            }),
    {
        if money.amount <= 0 {
            return Err(LedgerError::ValidationError(Field::Amount));
        }
        if !self.has_account(id) {
            return Err(LedgerError::NotFound(id));
        }
        let idx: usize = (id - 1) as usize;
        proof {
            assert(cust_wf(old(self)@.customers[id - 1], id - 1));
        }
        let bal = self.customers[idx].balance.unwrap();
        if money.amount > bal {
            return Err(LedgerError::InsufficientFunds);
        }
        self.customers[idx].balance = Some(bal - money.amount);
        proof {
            lemma_withdraw_preserves_wf(old(self)@, id, money.amount);
            assert(self@.customers =~= withdraw_apply(old(self)@, id, money.amount).customers);
            assert(self@ =~= withdraw_apply(old(self)@, id, money.amount));
        }
        Ok(())
    }

    /// Moves `amount` from one account to another and records it, as one
    /// atomic unit: the debit, the credit and the log append commit together
    /// in this call, or the error named by [`transfer_check`] comes back and
    /// nothing changes. Returns the new record's id.
    pub fn transfer(&mut self, id_from: u16, id_to: u16, amount: i64, created_at: String) -> (r:
        Result<u16, LedgerError>)
        requires
            old(self)@.wf(),
            old(self)@.transfers.len() < 0xFFFF,
        ensures
            final(self)@.wf(),
            (match transfer_check(old(self)@, id_from, id_to, amount) {
                Ok(()) => r == Ok::<u16, LedgerError>((old(self)@.transfers.len() + 1) as u16)
                    && final(self)@ == transfer_apply(
                    old(self)@,
                    id_from,
                    id_to,
                    amount,
                    created_at,
                ),
                Err(e) => r == Err::<u16, LedgerError>(e) && final(self)@ == old(self)@,
            }),
    {
        if id_from == id_to {
            return Err(LedgerError::InvalidOperation);
        }
        if amount <= 0 {
            return Err(LedgerError::ValidationError(Field::Amount));
        }
        if !self.has_account(id_from) {
            return Err(LedgerError::NotFound(id_from));
        }
        let from_idx: usize = (id_from - 1) as usize;
        proof {
            assert(cust_wf(old(self)@.customers[id_from - 1], id_from - 1));
        }
        let from_bal = self.customers[from_idx].balance.unwrap();
        if amount > from_bal {
            return Err(LedgerError::InsufficientFunds);
        }
        if !self.has_account(id_to) {
            return Err(LedgerError::NotFound(id_to));
        }
        let to_idx: usize = (id_to - 1) as usize;
        proof {
            assert(cust_wf(old(self)@.customers[id_to - 1], id_to - 1));
        }
        let to_bal = self.customers[to_idx].balance.unwrap();
        if to_bal > i64::MAX - amount {
            return Err(LedgerError::ValidationError(Field::Amount));
        }
        let tid = (self.transfers.len() + 1) as u16;
        let ghost rec = transfer_record(old(self)@, id_from, id_to, amount, created_at);
        self.customers[from_idx].balance = Some(from_bal - amount);
        self.customers[to_idx].balance = Some(to_bal + amount);
        self.transfers.push(
            Transfer { id: Some(tid), id_from, id_to, amount, created_at: Some(created_at) },
        );
        proof {
            lemma_transfer_preserves_wf(old(self)@, id_from, id_to, amount, created_at);
            let applied = transfer_apply(old(self)@, id_from, id_to, amount, created_at);
            assert(self@.transfers.last() =~= rec);
            assert(self@.customers =~= applied.customers);
            assert(self@.transfers =~= applied.transfers);
            assert(self@ =~= applied);
        }
        Ok(tid)
    }

    /// Moves an amount between the request's two accounts, stamped with the
    /// current time. Returns the new record's id.
    pub fn transfer_amount(&mut self, transfer: Transfer) -> (r: Result<u16, LedgerError>)
        requires
            old(self)@.wf(),
            old(self)@.transfers.len() < 0xFFFF,
        ensures
            final(self)@.wf(),
            (match transfer_check(old(self)@, transfer.id_from, transfer.id_to, transfer.amount) {
                Ok(()) => r == Ok::<u16, LedgerError>((old(self)@.transfers.len() + 1) as u16)
                    && (exists|ts: String|
                    final(self)@ == transfer_apply(
                        old(self)@,
                        transfer.id_from,
                        transfer.id_to,
                        transfer.amount,
                        ts,
                    )),
                Err(e) => r == Err::<u16, LedgerError>(e) && final(self)@ == old(self)@,
            }),
    {
        let ts = now_rfc2822();
        let ghost gts = ts;
        let r = self.transfer(transfer.id_from, transfer.id_to, transfer.amount, ts);
        proof {
            if transfer_check(old(self)@, transfer.id_from, transfer.id_to, transfer.amount)
                is Ok {
                assert(self@ == transfer_apply(
                    old(self)@,
                    transfer.id_from,
                    transfer.id_to,
                    transfer.amount,
                    gts,
                ));
            }
        }
        r
    }

    /// Appends a transfer record to the log without moving balances, for a
    /// movement settled elsewhere; the record must name two distinct existing
    /// accounts and a positive amount. Returns the new record's id.
    pub fn append_transfer(
        &mut self,
        id_from: u16,
        id_to: u16,
        amount: i64,
        created_at: String,
    ) -> (r: Result<u16, LedgerError>)
        requires
            old(self)@.wf(),
            old(self)@.transfers.len() < 0xFFFF,
        ensures
            final(self)@.wf(),
            (match append_transfer_check(old(self)@, id_from, id_to, amount) {
                Ok(()) => r == Ok::<u16, LedgerError>((old(self)@.transfers.len() + 1) as u16)
                    && final(self)@ == append_transfer_apply(
                    old(self)@,
                    id_from,
                    id_to,
                    amount,
                    created_at,
                ),
                Err(e) => r == Err::<u16, LedgerError>(e) && final(self)@ == old(self)@,
            }),
    {
        if id_from == id_to {
            return Err(LedgerError::InvalidOperation);
        }
        if amount <= 0 {
            return Err(LedgerError::ValidationError(Field::Amount));
        }
        if !self.has_account(id_from) {
            return Err(LedgerError::NotFound(id_from));
        }
        if !self.has_account(id_to) {
            return Err(LedgerError::NotFound(id_to));
        }
        let tid = (self.transfers.len() + 1) as u16;
        proof {
            lemma_append_transfer_preserves_wf(old(self)@, id_from, id_to, amount, created_at);
        }
        self.transfers.push(
            Transfer { id: Some(tid), id_from, id_to, amount, created_at: Some(created_at) },
        );
        proof {
            assert(self@.transfers.last() =~= transfer_record(
                old(self)@,
                id_from,
                id_to,
                amount,
                created_at,
            ));
            assert(self@.transfers =~= append_transfer_apply(
                old(self)@,
                id_from,
                id_to,
                amount,
                created_at,
            ).transfers);
            assert(self@ =~= append_transfer_apply(
                old(self)@,
                id_from,
                id_to,
                amount,
                created_at,
            ));
        }
        Ok(tid)
    }

    /// Appends a transfer record stamped with the current time. Returns the
    /// new record's id.
    pub fn create_transfer(&mut self, id_from: u16, id_to: u16, amount: i64) -> (r: Result<
        u16,
        LedgerError,
    >)
        requires
            old(self)@.wf(),
            old(self)@.transfers.len() < 0xFFFF,
        ensures
            final(self)@.wf(),
            (match append_transfer_check(old(self)@, id_from, id_to, amount) {
                Ok(()) => r == Ok::<u16, LedgerError>((old(self)@.transfers.len() + 1) as u16)
                    && (exists|ts: String|
                    final(self)@ == append_transfer_apply(old(self)@, id_from, id_to, amount, ts)),
                Err(e) => r == Err::<u16, LedgerError>(e) && final(self)@ == old(self)@,
            }),
    {
        let ts = now_rfc2822();
        let ghost gts = ts;
        let r = self.append_transfer(id_from, id_to, amount, ts);
        proof {
            if append_transfer_check(old(self)@, id_from, id_to, amount) is Ok {
                assert(self@ == append_transfer_apply(old(self)@, id_from, id_to, amount, gts));
            }
        }
        r
    }

    /// Appends a payment record to the log without moving balances, for an
    /// outbound movement settled elsewhere; the record must name an existing
    /// customer, a positive amount and non-empty payee fields. Returns the
    /// new record's id.
    pub fn append_payment(
        &mut self,
        customer_id: u16,
        amount: i64,
        receiver_code: String,
        reference: String,
        note: String,
        created_at: String,
    ) -> (r: Result<u16, LedgerError>)
        requires
            old(self)@.wf(),
            old(self)@.payments.len() < 0xFFFF,
        ensures
            final(self)@.wf(),
            (match append_payment_check(
                old(self)@,
                customer_id,
                amount,
                receiver_code@,
                reference@,
            ) {
                Ok(()) => r == Ok::<u16, LedgerError>((old(self)@.payments.len() + 1) as u16)
                    && final(self)@ == append_payment_apply(
                    old(self)@,
                    customer_id,
                    amount,
                    receiver_code,
                    reference,
                    note,
                    created_at,
                ),
                Err(e) => r == Err::<u16, LedgerError>(e) && final(self)@ == old(self)@,
            }),
    {
        if amount <= 0 {
            return Err(LedgerError::ValidationError(Field::Amount));
        }
        if receiver_code.as_str().is_empty() {
            return Err(LedgerError::ValidationError(Field::ReceiverCode));
        }
        if reference.as_str().is_empty() {
            return Err(LedgerError::ValidationError(Field::Reference));
        }
        if !self.has_account(customer_id) {
            return Err(LedgerError::NotFound(customer_id));
        }
        let pid = (self.payments.len() + 1) as u16;
        proof {
            lemma_append_payment_preserves_wf(
                old(self)@,
                customer_id,
                amount,
                receiver_code,
                reference,
                note,
                created_at,
            );
        }
        self.payments.push(
            Payment {
                id: Some(pid),
                created_at: Some(created_at),
                customer_id: Some(customer_id),
                amount,
                receiver_code,
                reference,
                note,
            },
        );
        proof {
            assert(self@ =~= append_payment_apply(
                old(self)@,
                customer_id,
                amount,
                receiver_code,
                reference,
                note,
                created_at,
            ));
        }
        Ok(pid)
    }

    /// Pays an external payee from an account, as one atomic unit: the debit
    /// and the payment record commit together in this call, or the error
    /// named by [`create_payment_check`] comes back and nothing changes — in
    /// particular, insufficient funds are rejected before the log is touched.
    /// The request must already carry its creation timestamp. Returns the new
    /// record's id.
    pub fn create_payment(&mut self, customer_id: u16, payment: Payment) -> (r: Result<
        u16,
        LedgerError,
    >)
        requires
            old(self)@.wf(),
            old(self)@.payments.len() < 0xFFFF,
        ensures
            final(self)@.wf(),
            (match create_payment_check(old(self)@, customer_id, payment) {
                Ok(()) => r == Ok::<u16, LedgerError>((old(self)@.payments.len() + 1) as u16)
                    && final(self)@ == create_payment_apply(old(self)@, customer_id, payment),
                Err(e) => r == Err::<u16, LedgerError>(e) && final(self)@ == old(self)@,
            }),
    {
        if payment.amount <= 0 {
            return Err(LedgerError::ValidationError(Field::Amount));
        }
        if payment.receiver_code.as_str().is_empty() {
            return Err(LedgerError::ValidationError(Field::ReceiverCode));
        }
        if payment.reference.as_str().is_empty() {
            return Err(LedgerError::ValidationError(Field::Reference));
        }
        if payment.created_at.is_none() {
            return Err(LedgerError::ValidationError(Field::CreatedAt));
        }
        if !self.has_account(customer_id) {
            return Err(LedgerError::NotFound(customer_id));
        }
        let idx: usize = (customer_id - 1) as usize;
        proof {
            assert(cust_wf(old(self)@.customers[customer_id - 1], customer_id - 1));
        }
        let bal = self.customers[idx].balance.unwrap();
        if payment.amount > bal {
            return Err(LedgerError::InsufficientFunds);
        }
        let pid = (self.payments.len() + 1) as u16;
        let amount = payment.amount;
        let rec = Payment { id: Some(pid), customer_id: Some(customer_id), ..payment };
        proof {
            lemma_create_payment_preserves_wf(old(self)@, customer_id, payment);
            assert(rec =~= payment_record(old(self)@, customer_id, payment));
        }
        self.customers[idx].balance = Some(bal - amount);
        self.payments.push(rec);
        proof {
            let applied = create_payment_apply(old(self)@, customer_id, payment);
            assert(self@.customers =~= applied.customers);
            assert(self@.payments =~= applied.payments);
            assert(self@ =~= applied);
        }
        Ok(pid)
    }

    /// Pays an external payee, stamping the record with the current time.
    /// Returns the new record's id.
    pub fn create_payment_now(&mut self, customer_id: u16, payment: Payment) -> (r: Result<
        u16,
        LedgerError,
    >)
        requires
            old(self)@.wf(),
            old(self)@.payments.len() < 0xFFFF,
        ensures
            final(self)@.wf(),
            (match payment_request_check(old(self)@, customer_id, payment) {
                Ok(()) => r == Ok::<u16, LedgerError>((old(self)@.payments.len() + 1) as u16)
                    && (exists|ts: String|
                    final(self)@ == create_payment_apply(
                        old(self)@,
                        customer_id,
                        (Payment { created_at: Some(ts), ..payment }),
                    )),
                Err(e) => r == Err::<u16, LedgerError>(e) && final(self)@ == old(self)@,
            }),
    {
        let ts = now_rfc2822();
        let ghost gts = ts;
        let stamped = Payment { created_at: Some(ts), ..payment };
        let r = self.create_payment(customer_id, stamped);
        proof {
            if payment_request_check(old(self)@, customer_id, payment) is Ok {
                assert(self@ == create_payment_apply(
                    old(self)@,
                    customer_id,
                    Payment { created_at: Some(gts), ..payment },
                ));
            }
        }
        r
    }
}

} // verus!
