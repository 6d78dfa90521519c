use bank_ledger::errors::LedgerError;
use bank_ledger::ledger::Ledger;
use bank_ledger::models::{Customer, Payment};

fn request(name: &str, balance: i64) -> Customer {
    Customer {
        id: None,
        name: name.to_string(),
        balance: Some(balance),
        created_at: Some("Tue, 01 Oct 2024 10:00:00 +0000".to_string()),
    }
}

fn payment_request(amount: i64, receiver_code: &str, reference: &str) -> Payment {
    Payment {
        id: None,
        created_at: Some("Tue, 01 Oct 2024 10:00:00 +0000".to_string()),
        customer_id: None,
        amount,
        receiver_code: receiver_code.to_string(),
        reference: reference.to_string(),
        note: "a note".to_string(),
    }
}

#[test]
fn get_customer_returns_the_stored_row() {
    let mut l = Ledger::new();
    assert_eq!(l.create_customer(request("Alice", 10)), Ok(1));
    let c = l.get_customer(1).unwrap();
    assert_eq!(c.id, Some(1));
    assert_eq!(c.name, "Alice");
    assert_eq!(c.balance, Some(10));
    assert_eq!(c.created_at.as_deref(), Some("Tue, 01 Oct 2024 10:00:00 +0000"));
    assert_eq!(l.get_customer(2), Err(LedgerError::NotFound(2)));
    assert_eq!(l.get_customer(0), Err(LedgerError::NotFound(0)));
}

#[test]
fn get_all_customers_lists_in_id_order() {
    let mut l = Ledger::new();
    assert!(l.get_all_customers().is_empty());
    assert_eq!(l.create_customer(request("Alice", 1)), Ok(1));
    assert_eq!(l.create_customer(request("Bob", 2)), Ok(2));
    assert_eq!(l.create_customer(request("Carol", 3)), Ok(3));
    let all = l.get_all_customers();
    assert_eq!(all.len(), 3);
    assert_eq!(all[0].name, "Alice");
    assert_eq!(all[1].name, "Bob");
    assert_eq!(all[2].name, "Carol");
    assert_eq!(all[0].id, Some(1));
    assert_eq!(all[2].id, Some(3));
}

#[test]
fn outgoing_transfers_filter_by_sender_and_name_the_receiver() {
    let mut l = Ledger::new();
    assert_eq!(l.create_customer(request("Alice", 100)), Ok(1));
    assert_eq!(l.create_customer(request("Bob", 100)), Ok(2));
    assert_eq!(l.create_customer(request("Carol", 100)), Ok(3));
    assert_eq!(l.transfer(1, 2, 10, "t1".to_string()), Ok(1));
    assert_eq!(l.transfer(2, 3, 20, "t2".to_string()), Ok(2));
    assert_eq!(l.transfer(1, 3, 30, "t3".to_string()), Ok(3));
    let alice = l.get_transfers_by_customer(1).unwrap();
    assert_eq!(alice.len(), 2);
    assert_eq!(alice[0].id, 1);
    assert_eq!(alice[0].name_to, "Bob");
    assert_eq!(alice[0].name_from, "");
    assert_eq!(alice[0].amount, 10);
    assert_eq!(alice[0].created_at, "t1");
    assert_eq!(alice[1].id, 3);
    assert_eq!(alice[1].name_to, "Carol");
    assert_eq!(alice[1].amount, 30);
    let carol = l.get_transfers_by_customer(3).unwrap();
    assert!(carol.is_empty());
    assert_eq!(l.get_transfers_by_customer(9), Err(LedgerError::NotFound(9)));
}

#[test]
fn global_transfer_feed_names_both_sides() {
    let mut l = Ledger::new();
    assert_eq!(l.create_customer(request("Alice", 100)), Ok(1));
    assert_eq!(l.create_customer(request("Bob", 100)), Ok(2));
    assert_eq!(l.transfer(1, 2, 10, "t1".to_string()), Ok(1));
    assert_eq!(l.transfer(2, 1, 4, "t2".to_string()), Ok(2));
    let all = l.get_all_transfers();
    assert_eq!(all.len(), 2);
    assert_eq!(all[0].name_from, "Alice");
    assert_eq!(all[0].name_to, "Bob");
    assert_eq!(all[0].amount, 10);
    assert_eq!(all[1].name_from, "Bob");
    assert_eq!(all[1].name_to, "Alice");
    assert_eq!(all[1].amount, 4);
}

#[test]
fn payments_filter_by_customer() {
    let mut l = Ledger::new();
    assert_eq!(l.create_customer(request("Alice", 100)), Ok(1));
    assert_eq!(l.create_customer(request("Bob", 100)), Ok(2));
    assert_eq!(l.create_payment(1, payment_request(5, "PAYEE-A", "r1")), Ok(1));
    assert_eq!(l.create_payment(2, payment_request(6, "PAYEE-B", "r2")), Ok(2));
    assert_eq!(l.create_payment(1, payment_request(7, "PAYEE-C", "r3")), Ok(3));
    let alice = l.get_payments_by_customer(1).unwrap();
    assert_eq!(alice.len(), 2);
    assert_eq!(alice[0].id, Some(1));
    assert_eq!(alice[0].receiver_code, "PAYEE-A");
    assert_eq!(alice[0].note, "a note");
    assert_eq!(alice[1].id, Some(3));
    assert_eq!(alice[1].receiver_code, "PAYEE-C");
    let bob = l.get_payments_by_customer(2).unwrap();
    assert_eq!(bob.len(), 1);
    assert_eq!(bob[0].receiver_code, "PAYEE-B");
    assert_eq!(l.get_payments_by_customer(5), Err(LedgerError::NotFound(5)));
}

#[test]
fn queries_do_not_mutate() {
    let mut l = Ledger::new();
    assert_eq!(l.create_customer(request("Alice", 100)), Ok(1));
    assert_eq!(l.create_customer(request("Bob", 0)), Ok(2));
    assert_eq!(l.transfer(1, 2, 10, "t1".to_string()), Ok(1));
    let before = l.get_all_customers();
    let _ = l.get_customer(1);
    let _ = l.get_transfers_by_customer(1);
    let _ = l.get_all_transfers();
    let _ = l.get_payments_by_customer(2);
    let after = l.get_all_customers();
    assert_eq!(before, after);
}
