//! The fixed schema of the persisted ledger: the three tables and the
//! statement that creates them. The text is owned here, versioned with the
//! ledger logic, so a persistence layer executes exactly this schema.

use vstd::prelude::*;

verus! {

/// The three tables of the persisted ledger.
#[derive(Clone, Copy, Debug, PartialEq, Eq, Structural)]
pub enum Table {
    CUSTOMER,
    TRANSFER,
    PAYMENT,
}

impl Table {
    /// The table's name in the store.
    pub open spec fn spec_as_str(self) -> Seq<char> {
        match self {
            Table::CUSTOMER => "customers"@,
            Table::TRANSFER => "transfers"@,
            Table::PAYMENT => "payments"@,
        }
    }

    /// The table's name in the store.
    pub fn as_str(&self) -> (r: &'static str)
        ensures
            r@ == self.spec_as_str(),
    {
        match self {
            Table::CUSTOMER => "customers",
            Table::TRANSFER => "transfers",
            Table::PAYMENT => "payments",
        }
    }
}

/// The statement that creates the three tables, idempotently.
pub open spec fn spec_schema_sql() -> Seq<char> {
    "BEGIN;
    CREATE TABLE IF NOT EXISTS customers (id INTEGER PRIMARY KEY, name TEXT NOT NULL, balance INTEGER NOT NULL DEFAULT 0, created_at TEXT NOT NULL);
    CREATE TABLE IF NOT EXISTS transfers (id INTEGER PRIMARY KEY, created_at TEXT NOT NULL, from_id INTEGER NOT NULL, to_id INTEGER NOT NULL, amount INTEGER NOT NULL);
    CREATE TABLE IF NOT EXISTS payments (id INTEGER PRIMARY KEY, created_at TEXT NOT NULL, customer_id INTEGER NOT NULL, amount INTEGER NOT NULL, receiver_code TEXT NOT NULL, reference TEXT NOT NULL, note TEXT NULL);
    COMMIT;"@
}

/// The statement that creates the three tables, idempotently.
pub fn schema_sql() -> (r: &'static str)
    ensures
        r@ == spec_schema_sql(),
{
    "BEGIN;
    CREATE TABLE IF NOT EXISTS customers (id INTEGER PRIMARY KEY, name TEXT NOT NULL, balance INTEGER NOT NULL DEFAULT 0, created_at TEXT NOT NULL);
    CREATE TABLE IF NOT EXISTS transfers (id INTEGER PRIMARY KEY, created_at TEXT NOT NULL, from_id INTEGER NOT NULL, to_id INTEGER NOT NULL, amount INTEGER NOT NULL);
    CREATE TABLE IF NOT EXISTS payments (id INTEGER PRIMARY KEY, created_at TEXT NOT NULL, customer_id INTEGER NOT NULL, amount INTEGER NOT NULL, receiver_code TEXT NOT NULL, reference TEXT NOT NULL, note TEXT NULL);
    COMMIT;"
}

} // verus!
