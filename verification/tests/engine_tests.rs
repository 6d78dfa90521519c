use bank_ledger::errors::{Field, LedgerError};
use bank_ledger::ledger::Ledger;
use bank_ledger::models::{Customer, CustomerEdit, Money, Payment};

fn request(name: &str, balance: Option<i64>) -> Customer {
    Customer {
        id: None,
        name: name.to_string(),
        balance,
        created_at: Some("Tue, 01 Oct 2024 10:00:00 +0000".to_string()),
    }
}

fn payment_request(amount: i64, receiver_code: &str, reference: &str) -> Payment {
    Payment {
        id: None,
        created_at: Some("Tue, 01 Oct 2024 10:00:00 +0000".to_string()),
        customer_id: None,
        amount,
        receiver_code: receiver_code.to_string(),
        reference: reference.to_string(),
        note: String::new(),
    }
}

#[test]
fn transfer_moves_amount_and_records_it() {
    let mut l = Ledger::new();
    assert_eq!(l.create_customer(request("Alice", Some(100))), Ok(1));
    assert_eq!(l.create_customer(request("Bob", Some(0))), Ok(2));
    let t = l.transfer(1, 2, 40, "ts-1".to_string());
    assert_eq!(t, Ok(1));
    assert_eq!(l.get_customer(1).unwrap().balance, Some(60));
    assert_eq!(l.get_customer(2).unwrap().balance, Some(40));
    let all = l.get_all_transfers();
    assert_eq!(all.len(), 1);
    assert_eq!(all[0].id, 1);
    assert_eq!(all[0].amount, 40);
    assert_eq!(all[0].name_from, "Alice");
    assert_eq!(all[0].name_to, "Bob");
}

#[test]
fn overdrawn_transfer_is_rejected_and_changes_nothing() {
    let mut l = Ledger::new();
    assert_eq!(l.create_customer(request("Alice", Some(60))), Ok(1));
    assert_eq!(l.create_customer(request("Bob", Some(7))), Ok(2));
    let t = l.transfer(1, 2, 1000, "ts-1".to_string());
    assert_eq!(t, Err(LedgerError::InsufficientFunds));
    assert_eq!(l.get_customer(1).unwrap().balance, Some(60));
    assert_eq!(l.get_customer(2).unwrap().balance, Some(7));
    assert_eq!(l.get_all_transfers().len(), 0);
}

#[test]
fn self_transfer_is_rejected_whatever_the_balance() {
    let mut l = Ledger::new();
    assert_eq!(l.create_customer(request("Alice", Some(1000))), Ok(1));
    assert_eq!(
        l.transfer(1, 1, 10, "ts-1".to_string()),
        Err(LedgerError::InvalidOperation)
    );
    assert_eq!(
        l.transfer(1, 1, 10_000, "ts-1".to_string()),
        Err(LedgerError::InvalidOperation)
    );
    assert_eq!(l.get_customer(1).unwrap().balance, Some(1000));
}

#[test]
fn conflicting_transfers_let_only_the_first_through() {
    let mut l = Ledger::new();
    assert_eq!(l.create_customer(request("Alice", Some(100))), Ok(1));
    assert_eq!(l.create_customer(request("Bob", Some(0))), Ok(2));
    assert_eq!(l.create_customer(request("Carol", Some(0))), Ok(3));
    // Both ask for 70 out of 100: together they exceed the funds.
    assert_eq!(l.transfer(1, 2, 70, "ts-1".to_string()), Ok(1));
    assert_eq!(
        l.transfer(1, 3, 70, "ts-2".to_string()),
        Err(LedgerError::InsufficientFunds)
    );
    assert_eq!(l.get_customer(1).unwrap().balance, Some(30));
    assert_eq!(l.get_customer(2).unwrap().balance, Some(70));
    assert_eq!(l.get_customer(3).unwrap().balance, Some(0));
    assert_eq!(l.get_all_transfers().len(), 1);
}

#[test]
fn deposit_then_equal_withdrawal_restores_the_balance() {
    let mut l = Ledger::new();
    assert_eq!(l.create_customer(request("Alice", Some(55))), Ok(1));
    assert_eq!(l.deposit(1, Money { amount: 17 }), Ok(()));
    assert_eq!(l.get_customer(1).unwrap().balance, Some(72));
    assert_eq!(l.withdraw(1, Money { amount: 17 }), Ok(()));
    assert_eq!(l.get_customer(1).unwrap().balance, Some(55));
}

#[test]
fn payment_debits_and_records_the_payee() {
    let mut l = Ledger::new();
    assert_eq!(l.create_customer(request("Alice", Some(60))), Ok(1));
    let p = l.create_payment(1, payment_request(20, "PAYEE1", "ref-1"));
    assert_eq!(p, Ok(1));
    assert_eq!(l.get_customer(1).unwrap().balance, Some(40));
    let history = l.get_payments_by_customer(1).unwrap();
    assert_eq!(history.len(), 1);
    assert_eq!(history[0].receiver_code, "PAYEE1");
    assert_eq!(history[0].reference, "ref-1");
    assert_eq!(history[0].amount, 20);
    assert_eq!(history[0].customer_id, Some(1));
}

#[test]
fn overdrawn_payment_touches_neither_balance_nor_log() {
    let mut l = Ledger::new();
    assert_eq!(l.create_customer(request("Alice", Some(10))), Ok(1));
    assert_eq!(
        l.create_payment(1, payment_request(20, "PAYEE1", "ref-1")),
        Err(LedgerError::InsufficientFunds)
    );
    assert_eq!(l.get_customer(1).unwrap().balance, Some(10));
    assert_eq!(l.get_payments_by_customer(1).unwrap().len(), 0);
}

#[test]
fn payment_field_validation() {
    let mut l = Ledger::new();
    assert_eq!(l.create_customer(request("Alice", Some(50))), Ok(1));
    assert_eq!(
        l.create_payment(1, payment_request(0, "PAYEE1", "ref-1")),
        Err(LedgerError::ValidationError(Field::Amount))
    );
    assert_eq!(
        l.create_payment(1, payment_request(5, "", "ref-1")),
        Err(LedgerError::ValidationError(Field::ReceiverCode))
    );
    assert_eq!(
        l.create_payment(1, payment_request(5, "PAYEE1", "")),
        Err(LedgerError::ValidationError(Field::Reference))
    );
    let mut unstamped = payment_request(5, "PAYEE1", "ref-1");
    unstamped.created_at = None;
    assert_eq!(
        l.create_payment(1, unstamped),
        Err(LedgerError::ValidationError(Field::CreatedAt))
    );
    assert_eq!(
        l.create_payment(9, payment_request(5, "PAYEE1", "ref-1")),
        Err(LedgerError::NotFound(9))
    );
}

#[test]
fn create_customer_validation() {
    let mut l = Ledger::new();
    assert_eq!(
        l.create_customer(request("Al", Some(10))),
        Err(LedgerError::ValidationError(Field::Name))
    );
    assert_eq!(
        l.create_customer(request("", Some(10))),
        Err(LedgerError::ValidationError(Field::Name))
    );
    assert_eq!(
        l.create_customer(request("Alice", Some(-1))),
        Err(LedgerError::ValidationError(Field::Balance))
    );
    let mut unstamped = request("Alice", Some(10));
    unstamped.created_at = None;
    assert_eq!(
        l.create_customer(unstamped),
        Err(LedgerError::ValidationError(Field::CreatedAt))
    );
    // A missing starting balance means zero.
    assert_eq!(l.create_customer(request("Dora", None)), Ok(1));
    assert_eq!(l.get_customer(1).unwrap().balance, Some(0));
}

#[test]
fn transfer_validation_order() {
    let mut l = Ledger::new();
    assert_eq!(l.create_customer(request("Alice", Some(50))), Ok(1));
    // Self-transfer outranks the amount check.
    assert_eq!(
        l.transfer(1, 1, 0, "ts".to_string()),
        Err(LedgerError::InvalidOperation)
    );
    assert_eq!(
        l.transfer(1, 2, 0, "ts".to_string()),
        Err(LedgerError::ValidationError(Field::Amount))
    );
    assert_eq!(
        l.transfer(1, 2, -5, "ts".to_string()),
        Err(LedgerError::ValidationError(Field::Amount))
    );
    // The debtor is looked up before the creditor.
    assert_eq!(
        l.transfer(7, 8, 5, "ts".to_string()),
        Err(LedgerError::NotFound(7))
    );
    // An unknown creditor is only reported when the funds cover the debit.
    assert_eq!(
        l.transfer(1, 8, 5, "ts".to_string()),
        Err(LedgerError::NotFound(8))
    );
    assert_eq!(
        l.transfer(1, 8, 500, "ts".to_string()),
        Err(LedgerError::InsufficientFunds)
    );
}

#[test]
fn deposit_and_withdraw_validation() {
    let mut l = Ledger::new();
    assert_eq!(l.create_customer(request("Alice", Some(50))), Ok(1));
    assert_eq!(
        l.deposit(1, Money { amount: 0 }),
        Err(LedgerError::ValidationError(Field::Amount))
    );
    assert_eq!(
        l.withdraw(1, Money { amount: -3 }),
        Err(LedgerError::ValidationError(Field::Amount))
    );
    assert_eq!(l.deposit(4, Money { amount: 5 }), Err(LedgerError::NotFound(4)));
    assert_eq!(l.withdraw(4, Money { amount: 5 }), Err(LedgerError::NotFound(4)));
    // A withdrawal may empty the account exactly.
    assert_eq!(l.withdraw(1, Money { amount: 50 }), Ok(()));
    assert_eq!(l.get_customer(1).unwrap().balance, Some(0));
    assert_eq!(
        l.withdraw(1, Money { amount: 1 }),
        Err(LedgerError::InsufficientFunds)
    );
}

#[test]
fn deposit_that_would_overflow_is_rejected() {
    let mut l = Ledger::new();
    assert_eq!(l.create_customer(request("Rich", Some(i64::MAX - 1))), Ok(1));
    assert_eq!(
        l.deposit(1, Money { amount: 2 }),
        Err(LedgerError::ValidationError(Field::Amount))
    );
    assert_eq!(l.deposit(1, Money { amount: 1 }), Ok(()));
    assert_eq!(l.get_customer(1).unwrap().balance, Some(i64::MAX));
}

#[test]
fn update_balance_and_rename() {
    let mut l = Ledger::new();
    assert_eq!(l.create_customer(request("Alice", Some(5))), Ok(1));
    assert_eq!(l.update_balance(1, 123), Ok(()));
    assert_eq!(l.get_customer(1).unwrap().balance, Some(123));
    assert_eq!(
        l.update_balance(1, -1),
        Err(LedgerError::ValidationError(Field::Balance))
    );
    assert_eq!(l.update_balance(3, 10), Err(LedgerError::NotFound(3)));
    assert_eq!(l.edit_customer(1, CustomerEdit { name: "Alicia".to_string() }), Ok(()));
    assert_eq!(l.get_customer(1).unwrap().name, "Alicia");
    assert_eq!(
        l.edit_customer(1, CustomerEdit { name: "Al".to_string() }),
        Err(LedgerError::ValidationError(Field::Name))
    );
    assert_eq!(
        l.edit_customer(9, CustomerEdit { name: "Al".to_string() }),
        Err(LedgerError::NotFound(9))
    );
}

#[test]
fn append_transfer_logs_without_moving_money() {
    let mut l = Ledger::new();
    assert_eq!(l.create_customer(request("Alice", Some(10))), Ok(1));
    assert_eq!(l.create_customer(request("Bob", Some(0))), Ok(2));
    assert_eq!(l.append_transfer(1, 2, 9, "ts-9".to_string()), Ok(1));
    assert_eq!(l.get_customer(1).unwrap().balance, Some(10));
    assert_eq!(l.get_customer(2).unwrap().balance, Some(0));
    let all = l.get_all_transfers();
    assert_eq!(all.len(), 1);
    assert_eq!(all[0].created_at, "ts-9");
    assert_eq!(
        l.append_transfer(1, 1, 9, "ts".to_string()),
        Err(LedgerError::InvalidOperation)
    );
    assert_eq!(
        l.append_transfer(1, 5, 9, "ts".to_string()),
        Err(LedgerError::NotFound(5))
    );
}

#[test]
fn append_payment_logs_without_moving_money() {
    let mut l = Ledger::new();
    assert_eq!(l.create_customer(request("Alice", Some(10))), Ok(1));
    let r = l.append_payment(
        1,
        9,
        "PAYEE-A".to_string(),
        "r1".to_string(),
        "settled in cash".to_string(),
        "ts-9".to_string(),
    );
    assert_eq!(r, Ok(1));
    assert_eq!(l.get_customer(1).unwrap().balance, Some(10));
    let history = l.get_payments_by_customer(1).unwrap();
    assert_eq!(history.len(), 1);
    assert_eq!(history[0].receiver_code, "PAYEE-A");
    assert_eq!(history[0].created_at.as_deref(), Some("ts-9"));
    assert_eq!(
        l.append_payment(1, 0, "PAYEE-A".into(), "r".into(), "".into(), "ts".into()),
        Err(LedgerError::ValidationError(Field::Amount))
    );
    assert_eq!(
        l.append_payment(1, 5, "".into(), "r".into(), "".into(), "ts".into()),
        Err(LedgerError::ValidationError(Field::ReceiverCode))
    );
    assert_eq!(
        l.append_payment(4, 5, "PAYEE-A".into(), "r".into(), "".into(), "ts".into()),
        Err(LedgerError::NotFound(4))
    );
}

#[test]
fn stamped_variants_behave_like_their_cores() {
    let mut l = Ledger::new();
    assert_eq!(l.create_customer_now(request("Alice", Some(30))), Ok(1));
    assert_eq!(l.create_customer_now(request("Bob", None)), Ok(2));
    let a = l.get_customer(1).unwrap();
    assert!(a.created_at.is_some());
    assert!(!a.created_at.unwrap().is_empty());
    let t = l.transfer_amount(bank_ledger::models::Transfer {
        id: None,
        id_from: 1,
        id_to: 2,
        amount: 12,
        created_at: None,
    });
    assert_eq!(t, Ok(1));
    assert_eq!(l.get_customer(1).unwrap().balance, Some(18));
    assert_eq!(l.get_customer(2).unwrap().balance, Some(12));
    assert_eq!(l.create_transfer(2, 1, 3), Ok(2));
    let all = l.get_all_transfers();
    assert_eq!(all.len(), 2);
    assert!(!all[0].created_at.is_empty());
    assert!(!all[1].created_at.is_empty());
    let p = l.create_payment_now(1, payment_request(8, "PAYEE2", "ref-2"));
    assert_eq!(p, Ok(1));
    assert_eq!(l.get_customer(1).unwrap().balance, Some(10));
    let history = l.get_payments_by_customer(1).unwrap();
    assert_eq!(history.len(), 1);
    assert!(history[0].created_at.is_some());
}

#[test]
fn balances_stay_nonnegative_across_a_mixed_sequence() {
    let mut l = Ledger::new();
    assert_eq!(l.create_customer(request("Alice", Some(3))), Ok(1));
    assert_eq!(l.create_customer(request("Bob", Some(2))), Ok(2));
    let _ = l.transfer(1, 2, 3, "ts".to_string());
    let _ = l.withdraw(2, Money { amount: 5 });
    let _ = l.transfer(2, 1, 5, "ts".to_string());
    let _ = l.withdraw(1, Money { amount: 1 });
    for c in l.get_all_customers() {
        assert!(c.balance.unwrap() >= 0);
    }
}
