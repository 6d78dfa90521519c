//! The ledger state and its mathematical model.
//!
//! A [`Ledger`] holds the customer accounts and the append-only logs of
//! transfers and payments. Its model, [`LedgerModel`], views the three
//! collections as sequences; every operation of the engine and every query is
//! specified against that model by a pair of spec functions: a *check* that
//! says exactly which error, if any, the inputs earn, and an *apply* that says
//! what the committed state is when the check passes.
//!
//! Row ids are assigned monotonically from 1 in order of creation, so the
//! account with id `i` is the `i-1`-th element of the model's sequence, and
//! every listing is ordered by id ascending for free.

use vstd::prelude::*;
use crate::errors::{Field, LedgerError};
use crate::models::{Customer, Payment, Transfer, spec_name_valid};

verus! {

/// The ledger: accounts and the audit log. Each mutating operation commits
/// all of its effects in one call or leaves the state untouched; callers that
/// share a ledger serialize their operations through `&mut` access.
pub struct Ledger {
    pub(crate) customers: Vec<Customer>,
    pub(crate) transfers: Vec<Transfer>,
    pub(crate) payments: Vec<Payment>,
}

/// The model of a ledger: the three collections as sequences, ordered by id.
#[verifier::ext_equal]
pub struct LedgerModel {
    pub customers: Seq<Customer>,
    pub transfers: Seq<Transfer>,
    pub payments: Seq<Payment>,
}

impl View for Ledger {
    type V = LedgerModel;

    open(crate) spec fn view(&self) -> LedgerModel {
        LedgerModel {
            customers: self.customers@,
            transfers: self.transfers@,
            payments: self.payments@,
        }
    }
}

/// A stored account at position `i`: id assigned as `i + 1`, a valid name,
/// a non-negative balance, and a creation timestamp.
pub open spec fn cust_wf(c: Customer, i: int) -> bool {
    &&& c.id == Some((i + 1) as u16)
    &&& spec_name_valid(c.name@)
    &&& c.balance is Some
    &&& c.balance->0 >= 0
    &&& c.created_at is Some
}

/// A stored transfer record at position `i`: id assigned as `i + 1`, both
/// endpoints existing and distinct, a positive amount, and a timestamp.
pub open spec fn transfer_wf(t: Transfer, i: int, n_accts: int) -> bool {
    &&& t.id == Some((i + 1) as u16)
    &&& 1 <= t.id_from && t.id_from as int <= n_accts
    &&& 1 <= t.id_to && t.id_to as int <= n_accts
    &&& t.id_from != t.id_to
    &&& t.amount > 0
    &&& t.created_at is Some
}

/// A stored payment record at position `i`: id assigned as `i + 1`, an
/// existing customer, a positive amount, non-empty payee fields, and a
/// timestamp.
pub open spec fn payment_wf(p: Payment, i: int, n_accts: int) -> bool {
    &&& p.id == Some((i + 1) as u16)
    &&& p.customer_id is Some
    &&& 1 <= p.customer_id->0 && p.customer_id->0 as int <= n_accts
    &&& p.amount > 0
    &&& p.receiver_code@.len() >= 1
    &&& p.reference@.len() >= 1
    &&& p.created_at is Some
}

impl LedgerModel {
    /// Every stored row is well formed; in particular every balance is
    /// non-negative, before and after every committed operation.
    pub open spec fn wf(self) -> bool {
        &&& self.customers.len() <= 0xFFFF
        &&& self.transfers.len() <= 0xFFFF
        &&& self.payments.len() <= 0xFFFF
        &&& forall|i: int|
            0 <= i < self.customers.len() ==> cust_wf(#[trigger] self.customers[i], i)
        &&& forall|i: int|
            0 <= i < self.transfers.len() ==> transfer_wf(
                #[trigger] self.transfers[i],
                i,
                self.customers.len() as int,
            )
        &&& forall|i: int|
            0 <= i < self.payments.len() ==> payment_wf(
                #[trigger] self.payments[i],
                i,
                self.customers.len() as int,
            )
    }

    /// `id` names a stored account.
    pub open spec fn has_acct(self, id: u16) -> bool {
        1 <= id && id as int <= self.customers.len()
    }

    /// The stored account named `id`.
    pub open spec fn acct(self, id: u16) -> Customer {
        self.customers[id - 1]
    }

    /// The balance of the account named `id`.
    pub open spec fn balance_of(self, id: u16) -> int {
        self.acct(id).balance->0 as int
    }
}

/// The model with the balance of account `id` replaced by `nb`.
pub open spec fn with_balance(m: LedgerModel, id: u16, nb: i64) -> LedgerModel {
    LedgerModel {
        customers: m.customers.update(id - 1, Customer { balance: Some(nb), ..m.acct(id) }),
        ..m
    }
}

/// The starting balance a creation request asks for: zero when unset.
pub open spec fn starting_balance(c: Customer) -> i64 {
    if c.balance is Some {
        c.balance->0
    } else {
        0
    }
}

/// Which error, if any, the fields of a creation request earn: a name of
/// fewer than three characters, then a negative starting balance.
pub open spec fn customer_fields_check(c: Customer) -> Result<(), LedgerError> {
    if !spec_name_valid(c.name@) {
        Err(LedgerError::ValidationError(Field::Name))
    } else if c.balance is Some && c.balance->0 < 0 {
        Err(LedgerError::ValidationError(Field::Balance))
    } else {
        Ok(())
    }
}

/// [`customer_fields_check`], and then the request must carry a creation
/// timestamp to store.
pub open spec fn create_customer_check(c: Customer) -> Result<(), LedgerError> {
    if customer_fields_check(c) is Err {
        customer_fields_check(c)
    } else if c.created_at is None {
        Err(LedgerError::ValidationError(Field::CreatedAt))
    } else {
        Ok(())
    }
}

/// The stored account a passing creation request becomes: the next id, the
/// requested name and timestamp, and the starting balance.
pub open spec fn created_customer(m: LedgerModel, c: Customer) -> Customer {
    Customer {
        id: Some((m.customers.len() + 1) as u16),
        name: c.name,
        balance: Some(starting_balance(c)),
        created_at: c.created_at,
    }
}

/// The model after a passing creation request commits.
pub open spec fn create_customer_apply(m: LedgerModel, c: Customer) -> LedgerModel {
    LedgerModel { customers: m.customers.push(created_customer(m, c)), ..m }
}

/// Which error, if any, a balance write earns: an unknown account, then a
/// balance that would break the non-negativity invariant.
pub open spec fn update_balance_check(m: LedgerModel, id: u16, balance: i64) -> Result<
    (),
    LedgerError,
> {
    if !m.has_acct(id) {
        Err(LedgerError::NotFound(id))
    } else if balance < 0 {
        Err(LedgerError::ValidationError(Field::Balance))
    } else {
        Ok(())
    }
}

/// Which error, if any, a rename earns: an unknown account, then a name of
/// fewer than three characters.
pub open spec fn rename_check(m: LedgerModel, id: u16, name: Seq<char>) -> Result<
    (),
    LedgerError,
> {
    if !m.has_acct(id) {
        Err(LedgerError::NotFound(id))
    } else if !spec_name_valid(name) {
        Err(LedgerError::ValidationError(Field::Name))
    } else {
        Ok(())
    }
}

/// The model with account `id` renamed.
pub open spec fn rename_apply(m: LedgerModel, id: u16, name: String) -> LedgerModel {
    LedgerModel {
        customers: m.customers.update(id - 1, Customer { name, ..m.acct(id) }),
        ..m
    }
}

/// Which error, if any, a deposit earns: a non-positive amount, an unknown
/// account, then an amount whose credit would not be representable.
pub open spec fn deposit_check(m: LedgerModel, id: u16, amount: i64) -> Result<
    (),
    LedgerError,
> {
    if amount <= 0 {
        Err(LedgerError::ValidationError(Field::Amount))
    } else if !m.has_acct(id) {
        Err(LedgerError::NotFound(id))
    } else if m.balance_of(id) + amount > i64::MAX {
        Err(LedgerError::ValidationError(Field::Amount))
    } else {
        Ok(())
    }
}

/// The model after a passing deposit commits.
pub open spec fn deposit_apply(m: LedgerModel, id: u16, amount: i64) -> LedgerModel {
    with_balance(m, id, (m.balance_of(id) + amount) as i64)
}

/// Which error, if any, a withdrawal earns: a non-positive amount, an unknown
/// account, then a debit larger than the balance.
pub open spec fn withdraw_check(m: LedgerModel, id: u16, amount: i64) -> Result<
    (),
    LedgerError,
> {
    if amount <= 0 {
        Err(LedgerError::ValidationError(Field::Amount))
    } else if !m.has_acct(id) {
        Err(LedgerError::NotFound(id))
    } else if amount > m.balance_of(id) {
        Err(LedgerError::InsufficientFunds)
    } else {
        Ok(())
    }
}

/// The model after a passing withdrawal commits.
pub open spec fn withdraw_apply(m: LedgerModel, id: u16, amount: i64) -> LedgerModel {
    with_balance(m, id, (m.balance_of(id) - amount) as i64)
}

/// Which error, if any, a transfer earns, in the order the engine decides:
/// a self-transfer, a non-positive amount, an unknown debtor, a debit larger
/// than the debtor's balance, an unknown creditor, then a credit that would
/// not be representable.
pub open spec fn transfer_check(m: LedgerModel, from: u16, to: u16, amount: i64) -> Result<
    (),
    LedgerError,
> {
    if from == to {
        Err(LedgerError::InvalidOperation)
    } else if amount <= 0 {
        Err(LedgerError::ValidationError(Field::Amount))
    } else if !m.has_acct(from) {
        Err(LedgerError::NotFound(from))
    } else if amount > m.balance_of(from) {
        Err(LedgerError::InsufficientFunds)
    } else if !m.has_acct(to) {
        Err(LedgerError::NotFound(to))
    } else if m.balance_of(to) + amount > i64::MAX {
        Err(LedgerError::ValidationError(Field::Amount))
    } else {
        Ok(())
    }
}

/// The record a passing transfer appends: the next id and the given endpoints,
/// amount and timestamp.
pub open spec fn transfer_record(
    m: LedgerModel,
    from: u16,
    to: u16,
    amount: i64,
    created_at: String,
) -> Transfer {
    Transfer {
        id: Some((m.transfers.len() + 1) as u16),
        id_from: from,
        id_to: to,
        amount,
        created_at: Some(created_at),
    }
}

/// The model after a passing transfer commits: the debit, the credit and the
/// log append, together.
pub open spec fn transfer_apply(
    m: LedgerModel,
    from: u16,
    to: u16,
    amount: i64,
    created_at: String,
) -> LedgerModel {
    let moved = with_balance(
        with_balance(m, from, (m.balance_of(from) - amount) as i64),
        to,
        (m.balance_of(to) + amount) as i64,
    );
    LedgerModel { transfers: m.transfers.push(transfer_record(m, from, to, amount, created_at)), ..moved }
}

/// Which error, if any, a bare log append earns: the record must name two
/// distinct existing accounts and carry a positive amount.
pub open spec fn append_transfer_check(m: LedgerModel, from: u16, to: u16, amount: i64) -> Result<
    (),
    LedgerError,
> {
    if from == to {
        Err(LedgerError::InvalidOperation)
    } else if amount <= 0 {
        Err(LedgerError::ValidationError(Field::Amount))
    } else if !m.has_acct(from) {
        Err(LedgerError::NotFound(from))
    } else if !m.has_acct(to) {
        Err(LedgerError::NotFound(to))
    } else {
        Ok(())
    }
}

/// The model after a bare log append commits; no balance moves.
pub open spec fn append_transfer_apply(
    m: LedgerModel,
    from: u16,
    to: u16,
    amount: i64,
    created_at: String,
) -> LedgerModel {
    LedgerModel { transfers: m.transfers.push(transfer_record(m, from, to, amount, created_at)), ..m }
}

/// Which error, if any, the fields of a payment request earn: a non-positive
/// amount, an empty receiver code, then an empty reference.
pub open spec fn payment_fields_check(p: Payment) -> Result<(), LedgerError> {
    if p.amount <= 0 {
        Err(LedgerError::ValidationError(Field::Amount))
    } else if p.receiver_code@.len() == 0 {
        Err(LedgerError::ValidationError(Field::ReceiverCode))
    } else if p.reference@.len() == 0 {
        Err(LedgerError::ValidationError(Field::Reference))
    } else {
        Ok(())
    }
}

/// Which error, if any, the paying account earns: an unknown customer, then
/// a debit larger than the balance.
pub open spec fn payment_tail_check(m: LedgerModel, customer_id: u16, amount: i64) -> Result<
    (),
    LedgerError,
> {
    if !m.has_acct(customer_id) {
        Err(LedgerError::NotFound(customer_id))
    } else if amount > m.balance_of(customer_id) {
        Err(LedgerError::InsufficientFunds)
    } else {
        Ok(())
    }
}

/// Which error, if any, a payment earns: the field checks, a missing
/// timestamp, an unknown customer, then a debit larger than the balance.
pub open spec fn create_payment_check(m: LedgerModel, customer_id: u16, p: Payment) -> Result<
    (),
    LedgerError,
> {
    if payment_fields_check(p) is Err {
        payment_fields_check(p)
    } else if p.created_at is None {
        Err(LedgerError::ValidationError(Field::CreatedAt))
    } else {
        payment_tail_check(m, customer_id, p.amount)
    }
}

/// Which error, if any, a payment request earns once the engine stamps the
/// timestamp itself: the field checks, then the account checks.
pub open spec fn payment_request_check(m: LedgerModel, customer_id: u16, p: Payment) -> Result<
    (),
    LedgerError,
> {
    if payment_fields_check(p) is Err {
        payment_fields_check(p)
    } else {
        payment_tail_check(m, customer_id, p.amount)
    }
}

/// Which error, if any, a bare payment log append earns: the record must
/// name an existing customer, a positive amount and non-empty payee fields.
pub open spec fn append_payment_check(
    m: LedgerModel,
    customer_id: u16,
    amount: i64,
    receiver_code: Seq<char>,
    reference: Seq<char>,
) -> Result<(), LedgerError> {
    if amount <= 0 {
        Err(LedgerError::ValidationError(Field::Amount))
    } else if receiver_code.len() == 0 {
        Err(LedgerError::ValidationError(Field::ReceiverCode))
    } else if reference.len() == 0 {
        Err(LedgerError::ValidationError(Field::Reference))
    } else if !m.has_acct(customer_id) {
        Err(LedgerError::NotFound(customer_id))
    } else {
        Ok(())
    }
}

/// The model after a bare payment log append commits; no balance moves.
pub open spec fn append_payment_apply(
    m: LedgerModel,
    customer_id: u16,
    amount: i64,
    receiver_code: String,
    reference: String,
    note: String,
    created_at: String,
) -> LedgerModel {
    LedgerModel {
        payments: m.payments.push(
            Payment {
                id: Some((m.payments.len() + 1) as u16),
                created_at: Some(created_at),
                customer_id: Some(customer_id),
                amount,
                receiver_code,
                reference,
                note,
            },
        ),
        ..m
    }
}

/// The record a passing payment appends: the next id, the paying customer,
/// and the request's amount, payee fields and timestamp.
pub open spec fn payment_record(m: LedgerModel, customer_id: u16, p: Payment) -> Payment {
    Payment { id: Some((m.payments.len() + 1) as u16), customer_id: Some(customer_id), ..p }
}

/// The model after a passing payment commits: the debit and the log append,
/// together.
pub open spec fn create_payment_apply(m: LedgerModel, customer_id: u16, p: Payment) -> LedgerModel {
    let debited = with_balance(m, customer_id, (m.balance_of(customer_id) - p.amount) as i64);
    LedgerModel { payments: m.payments.push(payment_record(m, customer_id, p)), ..debited }
}

impl Ledger {
    /// The empty ledger: no accounts, no history.
    pub fn new() -> (l: Ledger)
        ensures
            l@.customers == Seq::<Customer>::empty(),
            l@.transfers == Seq::<Transfer>::empty(),
            l@.payments == Seq::<Payment>::empty(),
            l@.wf(),
    {
        Ledger { customers: Vec::new(), transfers: Vec::new(), payments: Vec::new() }
    }

    /// Whether an account with this id exists.
    pub fn has_account(&self, id: u16) -> (r: bool)
        ensures
            r == self@.has_acct(id),
    {
        id >= 1 && (id as usize) <= self.customers.len()
    }
}

} // verus!
