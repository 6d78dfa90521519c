//! The laws of the ledger, stated over the model and proved once for all
//! states and inputs.
//!
//! The preservation lemmas say that every mutating operation keeps the ledger
//! well formed — in particular that every balance is non-negative before and
//! after any sequence of committed operations. The remaining lemmas state the
//! business rules: what a successful transfer moves and records, that a
//! self-transfer or an overdraft is always rejected, that two transfers
//! contending for the same funds cannot both succeed, and that a deposit
//! followed by an equal withdrawal restores the ledger exactly.

use vstd::prelude::*;
use crate::errors::LedgerError;
use crate::models::{Customer, Payment};
use crate::ledger::{
    LedgerModel, cust_wf, transfer_wf, payment_wf, with_balance, append_payment_apply,
    append_payment_check, create_customer_check,
    create_customer_apply, created_customer, update_balance_check, rename_check, rename_apply,
    deposit_check, deposit_apply, withdraw_check, withdraw_apply, transfer_check, transfer_apply,
    transfer_record, append_transfer_check, append_transfer_apply, create_payment_check,
    create_payment_apply, payment_record,
};

verus! {

/// In a well-formed ledger every account's balance is present and
/// non-negative. Together with the preservation lemmas below, this holds
/// before and after every operation sequence.
pub proof fn lemma_balances_nonnegative(m: LedgerModel, id: u16)
    requires
        m.wf(),
        m.has_acct(id),
    ensures
        m.acct(id).balance is Some,
        m.balance_of(id) >= 0,
{
    assert(cust_wf(m.customers[id - 1], id - 1));
}

/// Creating a customer that passes its checks keeps the ledger well formed.
pub proof fn lemma_create_customer_preserves_wf(m: LedgerModel, c: Customer)
    requires
        m.wf(),
        m.customers.len() < 0xFFFF,
        create_customer_check(c) is Ok,
    ensures
        create_customer_apply(m, c).wf(),
{
    let m2 = create_customer_apply(m, c);
    assert forall|i: int| 0 <= i < m2.customers.len() implies cust_wf(
        #[trigger] m2.customers[i],
        i,
    ) by {
        if i < m.customers.len() {
            assert(m2.customers[i] == m.customers[i]);
            assert(cust_wf(m.customers[i], i));
        } else {
            assert(m2.customers[i] == created_customer(m, c));
        }
    }
    assert forall|i: int| 0 <= i < m2.transfers.len() implies transfer_wf(
        #[trigger] m2.transfers[i],
        i,
        m2.customers.len() as int,
    ) by {
        assert(transfer_wf(m.transfers[i], i, m.customers.len() as int));
    }
    assert forall|i: int| 0 <= i < m2.payments.len() implies payment_wf(
        #[trigger] m2.payments[i],
        i,
        m2.customers.len() as int,
    ) by {
        assert(payment_wf(m.payments[i], i, m.customers.len() as int));
    }
}

/// Writing a balance that passes its checks keeps the ledger well formed.
pub proof fn lemma_update_balance_preserves_wf(m: LedgerModel, id: u16, balance: i64)
    requires
        m.wf(),
        update_balance_check(m, id, balance) is Ok,
    ensures
        with_balance(m, id, balance).wf(),
{
    let m2 = with_balance(m, id, balance);
    assert forall|i: int| 0 <= i < m2.customers.len() implies cust_wf(
        #[trigger] m2.customers[i],
        i,
    ) by {
        assert(cust_wf(m.customers[i], i));
        if i != id - 1 {
            assert(m2.customers[i] == m.customers[i]);
        }
    }
}

/// Renaming a customer to a valid name keeps the ledger well formed.
pub proof fn lemma_rename_preserves_wf(m: LedgerModel, id: u16, name: String)
    requires
        m.wf(),
        rename_check(m, id, name@) is Ok,
    ensures
        rename_apply(m, id, name).wf(),
{
    let m2 = rename_apply(m, id, name);
    assert forall|i: int| 0 <= i < m2.customers.len() implies cust_wf(
        #[trigger] m2.customers[i],
        i,
    ) by {
        assert(cust_wf(m.customers[i], i));
        if i != id - 1 {
            assert(m2.customers[i] == m.customers[i]);
        }
    }
}

/// A deposit that passes its checks keeps the ledger well formed.
pub proof fn lemma_deposit_preserves_wf(m: LedgerModel, id: u16, amount: i64)
    requires
        m.wf(),
        deposit_check(m, id, amount) is Ok,
    ensures
        deposit_apply(m, id, amount).wf(),
{
    let m2 = deposit_apply(m, id, amount);
    assert forall|i: int| 0 <= i < m2.customers.len() implies cust_wf(
        #[trigger] m2.customers[i],
        i,
    ) by {
        assert(cust_wf(m.customers[i], i));
        if i != id - 1 {
            assert(m2.customers[i] == m.customers[i]);
        }
    }
}

/// A withdrawal that passes its checks keeps the ledger well formed: the
/// debit can at most bring the balance to zero, never below.
pub proof fn lemma_withdraw_preserves_wf(m: LedgerModel, id: u16, amount: i64)
    requires
        m.wf(),
        withdraw_check(m, id, amount) is Ok,
    ensures
        withdraw_apply(m, id, amount).wf(),
{
    let m2 = withdraw_apply(m, id, amount);
    assert(cust_wf(m.customers[id - 1], id - 1));
    assert forall|i: int| 0 <= i < m2.customers.len() implies cust_wf(
        #[trigger] m2.customers[i],
        i,
    ) by {
        assert(cust_wf(m.customers[i], i));
        if i != id - 1 {
            assert(m2.customers[i] == m.customers[i]);
        }
    }
}

/// A transfer that passes its checks keeps the ledger well formed: the debit
/// is covered, the credit stays representable, and the appended record is a
/// valid row.
pub proof fn lemma_transfer_preserves_wf(
    m: LedgerModel,
    from: u16,
    to: u16,
    amount: i64,
    created_at: String,
)
    requires
        m.wf(),
        m.transfers.len() < 0xFFFF,
        transfer_check(m, from, to, amount) is Ok,
    ensures
        transfer_apply(m, from, to, amount, created_at).wf(),
{
    let m2 = transfer_apply(m, from, to, amount, created_at);
    assert(cust_wf(m.customers[from - 1], from - 1));
    assert(cust_wf(m.customers[to - 1], to - 1));
    assert forall|i: int| 0 <= i < m2.customers.len() implies cust_wf(
        #[trigger] m2.customers[i],
        i,
    ) by {
        assert(cust_wf(m.customers[i], i));
        if i != from - 1 && i != to - 1 {
            assert(m2.customers[i] == m.customers[i]);
        }
    }
    assert forall|i: int| 0 <= i < m2.transfers.len() implies transfer_wf(
        #[trigger] m2.transfers[i],
        i,
        m2.customers.len() as int,
    ) by {
        if i < m.transfers.len() {
            assert(m2.transfers[i] == m.transfers[i]);
            assert(transfer_wf(m.transfers[i], i, m.customers.len() as int));
        } else {
            assert(m2.transfers[i] == transfer_record(m, from, to, amount, created_at));
        }
    }
    assert forall|i: int| 0 <= i < m2.payments.len() implies payment_wf(
        #[trigger] m2.payments[i],
        i,
        m2.customers.len() as int,
    ) by {
        assert(payment_wf(m.payments[i], i, m.customers.len() as int));
    }
}

/// A bare log append that passes its checks keeps the ledger well formed.
pub proof fn lemma_append_transfer_preserves_wf(
    m: LedgerModel,
    from: u16,
    to: u16,
    amount: i64,
    created_at: String,
)
    requires
        m.wf(),
        m.transfers.len() < 0xFFFF,
        append_transfer_check(m, from, to, amount) is Ok,
    ensures
        append_transfer_apply(m, from, to, amount, created_at).wf(),
{
    let m2 = append_transfer_apply(m, from, to, amount, created_at);
    assert forall|i: int| 0 <= i < m2.transfers.len() implies transfer_wf(
        #[trigger] m2.transfers[i],
        i,
        m2.customers.len() as int,
    ) by {
        if i < m.transfers.len() {
            assert(m2.transfers[i] == m.transfers[i]);
            assert(transfer_wf(m.transfers[i], i, m.customers.len() as int));
        } else {
            assert(m2.transfers[i] == transfer_record(m, from, to, amount, created_at));
        }
    }
}

/// A bare payment log append that passes its checks keeps the ledger well
/// formed.
pub proof fn lemma_append_payment_preserves_wf(
    m: LedgerModel,
    customer_id: u16,
    amount: i64,
    receiver_code: String,
    reference: String,
    note: String,
    created_at: String,
)
    requires
        m.wf(),
        m.payments.len() < 0xFFFF,
        append_payment_check(m, customer_id, amount, receiver_code@, reference@) is Ok,
    ensures
        append_payment_apply(m, customer_id, amount, receiver_code, reference, note, created_at).wf(),
{
    let m2 = append_payment_apply(m, customer_id, amount, receiver_code, reference, note, created_at);
    assert forall|i: int| 0 <= i < m2.payments.len() implies payment_wf(
        #[trigger] m2.payments[i],
        i,
        m2.customers.len() as int,
    ) by {
        if i < m.payments.len() {
            assert(m2.payments[i] == m.payments[i]);
            assert(payment_wf(m.payments[i], i, m.customers.len() as int));
        }
    }
}

/// A payment that passes its checks keeps the ledger well formed.
pub proof fn lemma_create_payment_preserves_wf(m: LedgerModel, customer_id: u16, p: Payment)
    requires
        m.wf(),
        m.payments.len() < 0xFFFF,
        create_payment_check(m, customer_id, p) is Ok,
    ensures
        create_payment_apply(m, customer_id, p).wf(),
{
    let m2 = create_payment_apply(m, customer_id, p);
    assert(cust_wf(m.customers[customer_id - 1], customer_id - 1));
    assert forall|i: int| 0 <= i < m2.customers.len() implies cust_wf(
        #[trigger] m2.customers[i],
        i,
    ) by {
        assert(cust_wf(m.customers[i], i));
        if i != customer_id - 1 {
            assert(m2.customers[i] == m.customers[i]);
        }
    }
    assert forall|i: int| 0 <= i < m2.payments.len() implies payment_wf(
        #[trigger] m2.payments[i],
        i,
        m2.customers.len() as int,
    ) by {
        if i < m.payments.len() {
            assert(m2.payments[i] == m.payments[i]);
            assert(payment_wf(m.payments[i], i, m.customers.len() as int));
        } else {
            assert(m2.payments[i] == payment_record(m, customer_id, p));
        }
    }
}

/// What a successful transfer does: it moves exactly `amount` from the
/// debtor to the creditor and appends one matching record, with the next id;
/// every other account, and the payment log, are untouched.
pub proof fn lemma_transfer_moves_amount(
    m: LedgerModel,
    from: u16,
    to: u16,
    amount: i64,
    created_at: String,
)
    requires
        m.wf(),
        transfer_check(m, from, to, amount) is Ok,
    ensures
        transfer_apply(m, from, to, amount, created_at).balance_of(from) == m.balance_of(from)
            - amount,
        transfer_apply(m, from, to, amount, created_at).balance_of(to) == m.balance_of(to)
            + amount,
        transfer_apply(m, from, to, amount, created_at).transfers.len() == m.transfers.len() + 1,
        transfer_apply(m, from, to, amount, created_at).transfers.last() == transfer_record(
            m,
            from,
            to,
            amount,
            created_at,
        ),
        transfer_record(m, from, to, amount, created_at).id_from == from,
        transfer_record(m, from, to, amount, created_at).id_to == to,
        transfer_record(m, from, to, amount, created_at).amount == amount,
        transfer_apply(m, from, to, amount, created_at).customers.len() == m.customers.len(),
        forall|other: u16|
            m.has_acct(other) && other != from && other != to ==> #[trigger] transfer_apply(
                m,
                from,
                to,
                amount,
                created_at,
            ).acct(other) == m.acct(other),
        transfer_apply(m, from, to, amount, created_at).payments == m.payments,
{
}

/// A transfer from an account to itself is always rejected, whatever the
/// balance or the amount.
pub proof fn lemma_self_transfer_rejected(m: LedgerModel, id: u16, amount: i64)
    ensures
        transfer_check(m, id, id, amount) == Err::<(), LedgerError>(LedgerError::InvalidOperation),
{
}

/// A transfer of more than the debtor's balance is always rejected as
/// insufficient funds. The engine's contract adds that a rejected transfer
/// leaves the ledger, and so both balances, unchanged.
pub proof fn lemma_overdraft_rejected(m: LedgerModel, from: u16, to: u16, amount: i64)
    requires
        from != to,
        amount > 0,
        m.has_acct(from),
        amount > m.balance_of(from),
    ensures
        transfer_check(m, from, to, amount) == Err::<(), LedgerError>(
            LedgerError::InsufficientFunds,
        ),
{
}

/// Two transfers out of the same account whose amounts sum to more than its
/// balance cannot both succeed: once the first commits, the second is
/// rejected. The ledger serializes operations, so of two conflicting
/// transfers for the same funds exactly the first in commit order wins.
pub proof fn lemma_conflicting_transfers(
    m: LedgerModel,
    from: u16,
    to1: u16,
    to2: u16,
    a1: i64,
    a2: i64,
    ts1: String,
)
    requires
        m.wf(),
        transfer_check(m, from, to1, a1) is Ok,
        a1 + a2 > m.balance_of(from),
    ensures
        !(transfer_check(transfer_apply(m, from, to1, a1, ts1), from, to2, a2) is Ok),
{
    let m2 = transfer_apply(m, from, to1, a1, ts1);
    assert(m2.balance_of(from) == m.balance_of(from) - a1);
}

/// A deposit followed by a withdrawal of the same amount restores the ledger
/// exactly: the withdrawal is always accepted, and every balance — and both
/// logs — end as they began.
pub proof fn lemma_deposit_withdraw_round_trip(m: LedgerModel, id: u16, amount: i64)
    requires
        m.wf(),
        deposit_check(m, id, amount) is Ok,
    ensures
        withdraw_check(deposit_apply(m, id, amount), id, amount) is Ok,
        withdraw_apply(deposit_apply(m, id, amount), id, amount) == m,
{
    let m2 = deposit_apply(m, id, amount);
    let m3 = withdraw_apply(m2, id, amount);
    assert(cust_wf(m.customers[id - 1], id - 1));
    assert(m3.customers[id - 1] =~= m.customers[id - 1]);
    assert(m3.customers =~= m.customers);
    assert(m3 =~= m);
}

} // verus!
