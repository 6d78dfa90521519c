//! The data model: customers, transfer and payment records, and the small
//! request/response shapes the surrounding service exchanges with callers.
//!
//! Money is a fixed-point value held in a signed 64-bit integer of minor
//! units; the ledger keeps every stored balance non-negative.

use vstd::prelude::*;

verus! {

broadcast use vstd::string::axiom_spec_iter, vstd::string::next_postcondition;

/// A customer account. `id`, `balance` and `created_at` are assigned by the
/// ledger on creation; a request to create an account may leave them unset
/// (an unset balance means a starting balance of zero).
#[verifier::ext_equal]
#[derive(Debug, PartialEq)]
pub struct Customer {
    pub id: Option<u16>,
    pub name: String,
    pub balance: Option<i64>,
    pub created_at: Option<String>,
}

/// A request to rename a customer.
#[verifier::ext_equal]
#[derive(Debug, PartialEq)]
pub struct CustomerEdit {
    pub name: String,
}

/// An encoded bearer token, as the service hands it out.
#[derive(Debug, PartialEq)]
pub struct Token {
    pub text: String,
}

/// The claims carried by a bearer token.
#[derive(Debug, PartialEq)]
pub struct Claims {
    pub sub: String,
    pub iat: usize,
    pub exp: usize,
    pub role: String,
}

/// An outbound payment from a customer to an external payee, immutable once
/// appended to the log. `id`, `customer_id` and `created_at` are assigned by
/// the ledger on append.
#[verifier::ext_equal]
#[derive(Debug, PartialEq)]
pub struct Payment {
    pub id: Option<u16>,
    pub created_at: Option<String>,
    pub customer_id: Option<u16>,
    pub amount: i64,
    pub receiver_code: String,
    pub reference: String,
    pub note: String,
}

/// A movement of funds between two customers, immutable once appended to the
/// log. `id` and `created_at` are assigned by the ledger on append.
#[verifier::ext_equal]
#[derive(Debug, PartialEq)]
pub struct Transfer {
    pub id: Option<u16>,
    pub id_from: u16,
    pub id_to: u16,
    pub amount: i64,
    pub created_at: Option<String>,
}

/// A transfer as presented to a reader: counterparties by name, not by id.
#[verifier::ext_equal]
#[derive(Debug, PartialEq)]
pub struct TransferHuman {
    pub id: u16,
    pub name_from: String,
    pub name_to: String,
    pub amount: i64,
    pub created_at: String,
}

/// A human-readable outcome message.
#[derive(Debug, PartialEq)]
pub struct APIResponse {
    pub message: String,
}

/// An amount of cash to deposit or withdraw.
#[derive(Debug, PartialEq)]
pub struct Money {
    pub amount: i64,
}

impl Clone for Customer {
    fn clone(&self) -> (res: Self)
        ensures
            res == *self,
    {
        Customer {
            id: self.id,
            name: self.name.clone(),
            balance: self.balance,
            created_at: clone_opt_string(&self.created_at),
        }
    }
}

impl Clone for Payment {
    fn clone(&self) -> (res: Self)
        ensures
            res == *self,
    {
        Payment {
            id: self.id,
            created_at: clone_opt_string(&self.created_at),
            customer_id: self.customer_id,
            amount: self.amount,
            receiver_code: self.receiver_code.clone(),
            reference: self.reference.clone(),
            note: self.note.clone(),
        }
    }
}

impl Clone for Transfer {
    fn clone(&self) -> (res: Self)
        ensures
            res == *self,
    {
        Transfer {
            id: self.id,
            id_from: self.id_from,
            id_to: self.id_to,
            amount: self.amount,
            created_at: clone_opt_string(&self.created_at),
        }
    }
}

impl Clone for TransferHuman {
    fn clone(&self) -> (res: Self)
        ensures
            res == *self,
    {
        TransferHuman {
            id: self.id,
            name_from: self.name_from.clone(),
            name_to: self.name_to.clone(),
            amount: self.amount,
            created_at: self.created_at.clone(),
        }
    }
}

fn clone_opt_string(s: &Option<String>) -> (res: Option<String>)
    ensures
        res == *s,
{
    match s {
        Some(x) => Some(x.clone()),
        None => None,
    }
}

/// A customer name is acceptable when it has at least three characters.
pub open spec fn spec_name_valid(name: Seq<char>) -> bool {
    name.len() >= 3
}

/// Decides [`spec_name_valid`] for a character count that only the string's
/// iterator can reveal.
pub fn name_is_valid(name: &str) -> (r: bool)
    ensures
        r == spec_name_valid(name@),
{
    let mut it = name.chars();
    if it.next().is_none() {
        return false;
    }
    if it.next().is_none() {
        return false;
    }
    it.next().is_some()
}

/// An ASCII blank, as found between the parts of an authorization header.
pub open spec fn is_blank(c: char) -> bool {
    c == ' ' || c == '\t' || c == '\n' || c == '\r'
}

/// The first position at or after `i` whose blankness equals `blank`, or the
/// end of `s`.
pub open spec fn scan(s: Seq<char>, i: int, blank: bool) -> int
    recommends
        0 <= i <= s.len(),
    decreases s.len() - i,
{
    if i >= s.len() {
        s.len() as int
    } else if is_blank(s[i]) == blank {
        i
    } else {
        scan(s, i + 1, blank)
    }
}

/// Where the second blank-separated word of `s` begins: past any leading
/// blanks, the first word, and the blanks after it.
pub open spec fn second_word_start(s: Seq<char>) -> int {
    scan(s, scan(s, scan(s, 0, false), true), false)
}

/// Where the second blank-separated word of `s` ends.
pub open spec fn second_word_end(s: Seq<char>) -> int {
    scan(s, second_word_start(s), true)
}

/// The second blank-separated word of `s`, if there is one: for an
/// authorization header `"Bearer <token>"`, the token.
pub open spec fn spec_bearer_token(s: Seq<char>) -> Option<Seq<char>> {
    if second_word_start(s) < s.len() {
        Some(s.subrange(second_word_start(s), second_word_end(s)))
    } else {
        None
    }
}

fn is_blank_char(c: char) -> (b: bool)
    ensures
        b == is_blank(c),
{
    c == ' ' || c == '\t' || c == '\n' || c == '\r'
}

/// The token carried by an authorization header: its second blank-separated
/// word (`"Bearer <token>"` yields the token), or `None` when the header has
/// no second word.
pub fn bearer_token(header: &str) -> (r: Option<String>)
    ensures
        (match r {
            Some(t) => spec_bearer_token(header@) == Some(t@),
            None => spec_bearer_token(header@) is None,
        }),
{
    let n = header.unicode_len();
    let mut i: usize = 0;
    while i < n && is_blank_char(header.get_char(i))
        invariant
            n == header@.len(),
            i <= n,
            scan(header@, 0, false) == scan(header@, i as int, false),
        decreases n - i,
    {
        i += 1;
    }
    proof {
        assert(scan(header@, 0, false) == i);
    }
    let ghost w1 = i as int;
    while i < n && !is_blank_char(header.get_char(i))
        invariant
            n == header@.len(),
            w1 <= i <= n,
            scan(header@, w1, true) == scan(header@, i as int, true),
        decreases n - i,
    {
        i += 1;
    }
    proof {
        assert(scan(header@, w1, true) == i);
    }
    let ghost b2 = i as int;
    while i < n && is_blank_char(header.get_char(i))
        invariant
            n == header@.len(),
            b2 <= i <= n,
            scan(header@, b2, false) == scan(header@, i as int, false),
        decreases n - i,
    {
        i += 1;
    }
    proof {
        assert(scan(header@, b2, false) == i);
        assert(second_word_start(header@) == i);
    }
    if i == n {
        return None;
    }
    let start = i;
    while i < n && !is_blank_char(header.get_char(i))
        invariant
            n == header@.len(),
            start <= i <= n,
            scan(header@, start as int, true) == scan(header@, i as int, true),
        decreases n - i,
    {
        i += 1;
    }
    proof {
        assert(scan(header@, start as int, true) == i);
        assert(second_word_end(header@) == i);
    }
    Some(header.substring_char(start, i).to_owned())
}

/// How long an issued token stays valid.
pub const TOKEN_EXPIRATION_MINUTES: u16 = 1 * 60 * 24;

/// The claims of the administrative token the service issues: issued at
/// `iat`, expiring [`TOKEN_EXPIRATION_MINUTES`] later.
pub fn admin_claims(iat: usize) -> (c: Claims)
    requires
        iat + TOKEN_EXPIRATION_MINUTES as int * 60 <= usize::MAX,
    ensures
        c.sub@ == "admin@mail.com"@,
        c.role@ == "admin"@,
        c.iat == iat,
        c.exp == iat + TOKEN_EXPIRATION_MINUTES as int * 60,
{
    let minutes: usize = TOKEN_EXPIRATION_MINUTES as usize;
    Claims {
        sub: "admin@mail.com".to_owned(),
        iat,
        exp: iat + minutes * 60,
        role: "admin".to_owned(),
    }
}

} // verus!
