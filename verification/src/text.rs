//! The wording of the messages that the registry answers with.

use vstd::prelude::*;
use vstd::string::*;

verus! {

/// The character of one decimal digit.
pub open spec fn digit(d: int) -> char {
    if d == 0 {
        '0'
    } else if d == 1 {
        '1'
    } else if d == 2 {
        '2'
    } else if d == 3 {
        '3'
    } else if d == 4 {
        '4'
    } else if d == 5 {
        '5'
    } else if d == 6 {
        '6'
    } else if d == 7 {
        '7'
    } else if d == 8 {
        '8'
    } else {
        '9'
    }
}

/// The decimal digits of a natural number, without leading zeros.
pub open spec fn decimal_nat(n: nat) -> Seq<char>
    decreases n,
{
    if n < 10 {
        seq![digit(n as int)]
    } else {
        decimal_nat(n / 10).push(digit((n % 10) as int))
    }
}

/// The decimal form of an integer: a minus sign if it is negative, then
/// the digits of its magnitude.
pub open spec fn decimal(n: int) -> Seq<char> {
    if n < 0 {
        seq!['-'] + decimal_nat((-n) as nat)
    } else {
        decimal_nat(n as nat)
    }
}

/// The characters of a list of digits that holds the least significant
/// digit first.
pub open spec fn reversed_digits(digits: Seq<u8>) -> Seq<char>
    decreases digits.len(),
{
    if digits.len() == 0 {
        Seq::empty()
    } else {
        seq![digit(digits.last() as int)] + reversed_digits(digits.drop_last())
    }
}

/// The text of one decimal digit.
fn digit_text(d: u8) -> (s: &'static str)
    requires
        d < 10,
    ensures
        s@ == seq![digit(d as int)],
{
    proof {
        reveal_strlit("0");
        reveal_strlit("1");
        reveal_strlit("2");
        reveal_strlit("3");
        reveal_strlit("4");
        reveal_strlit("5");
        reveal_strlit("6");
        reveal_strlit("7");
        reveal_strlit("8");
        reveal_strlit("9");
    }
    let s = if d == 0 {
        "0"
    } else if d == 1 {
        "1"
    } else if d == 2 {
        "2"
    } else if d == 3 {
        "3"
    } else if d == 4 {
        "4"
    } else if d == 5 {
        "5"
    } else if d == 6 {
        "6"
    } else if d == 7 {
        "7"
    } else if d == 8 {
        "8"
    } else {
        "9"
    };
    s
}

/// Writes an integer in decimal.
pub fn decimal_text(n: i64) -> (s: String)
    ensures
        s@ == decimal(n as int),
{
    let magnitude: u64 = if n < 0 {
        (-(n + 1)) as u64 + 1
    } else {
        n as u64
    };
    let mut digits: Vec<u8> = Vec::new();
    let mut rest: u64 = magnitude;
    while rest >= 10
        invariant
            decimal_nat(magnitude as nat) == decimal_nat(rest as nat) + reversed_digits(digits@),
            forall|k: int| 0 <= k < digits.len() ==> digits[k] < 10,
        decreases rest,
    {
        let ghost before = digits@;
        digits.push((rest % 10) as u8);
        proof {
            assert(digits@.drop_last() =~= before);
        }
        rest = rest / 10;
    }
    let ghost before = digits@;
    digits.push(rest as u8);
    proof {
        assert(digits@.drop_last() =~= before);
    }
    let mut s = if n < 0 {
        String::from_str("-")
    } else {
        String::new()
    };
    let ghost sign = s@;
    proof {
        reveal_strlit("-");
    }
    let mut i: usize = digits.len();
    assert(digits@.take(i as int) =~= digits@);
    while i > 0
        invariant
            i <= digits.len(),
            forall|k: int| 0 <= k < digits.len() ==> digits[k] < 10,
            sign + reversed_digits(digits@) == s@ + reversed_digits(digits@.take(i as int)),
        decreases i,
    {
        i = i - 1;
        proof {
            let shorter = digits@.take(i + 1);
            assert(shorter.drop_last() =~= digits@.take(i as int));
        }
        s.append(digit_text(digits[i]));
    }
    s
}

/// "Event with ID `id` not found".
pub open spec fn event_not_found(id: Seq<char>) -> Seq<char> {
    "Event with ID "@ + id + " not found"@
}

/// "Group with ID `id` not found".
pub open spec fn group_not_found(id: i64) -> Seq<char> {
    "Group with ID "@ + decimal(id as int) + " not found"@
}

/// "Member with ID `id` not found".
pub open spec fn member_not_found(id: i64) -> Seq<char> {
    "Member with ID "@ + decimal(id as int) + " not found"@
}

/// "Group with ID `id` does not accept new members".
pub open spec fn group_closed(id: i64) -> Seq<char> {
    "Group with ID "@ + decimal(id as int) + " does not accept new members"@
}

/// "Group size limit of `limit` has been reached".
pub open spec fn group_full(limit: i64) -> Seq<char> {
    "Group size limit of "@ + decimal(limit as int) + " has been reached"@
}

/// What the store is blamed with when a statement that must give back a
/// row gives back none.
pub open spec fn missing_row() -> Seq<char> {
    "no rows returned by a query that expected to return at least one row"@
}

/// What is answered when the store replies with something the statement
/// sent to it cannot produce.
pub open spec fn unexpected_reply() -> Seq<char> {
    "unexpected reply from the store"@
}

/// What is answered for an event whose limit on the size of its groups
/// is below zero.
pub open spec fn negative_limit() -> Seq<char> {
    "group_size_limit must not be negative"@
}

/// What is answered for a page number below one, or a page so far out
/// that its offset cannot be expressed.
pub open spec fn bad_page() -> Seq<char> {
    "page must be at least 1 and its offset must fit in 63 bits"@
}

/// What a store reports when asked to store an event under an id that
/// is taken.
pub open spec fn duplicate_event() -> Seq<char> {
    "an event with this id exists already"@
}

/// What a store reports when it has no fresh id left to give.
pub open spec fn ids_exhausted() -> Seq<char> {
    "no fresh id is left"@
}

/// What a store reports when asked to open a transaction inside another.
pub open spec fn transaction_open() -> Seq<char> {
    "a transaction is open already"@
}

/// What a store reports when asked to commit without a transaction.
pub open spec fn no_transaction() -> Seq<char> {
    "no transaction is open"@
}

/// Joins three pieces of text.
fn join3(head: &str, middle: &str, tail: &str) -> (s: String)
    ensures
        s@ == head@ + middle@ + tail@,
{
    let mut s = String::from_str(head);
    s.append(middle);
    s.append(tail);
    s
}

pub fn event_not_found_text(id: &str) -> (s: String)
    ensures
        s@ == event_not_found(id@),
{
    join3("Event with ID ", id, " not found")
}

pub fn group_not_found_text(id: i64) -> (s: String)
    ensures
        s@ == group_not_found(id),
{
    let number = decimal_text(id);
    join3("Group with ID ", number.as_str(), " not found")
}

pub fn member_not_found_text(id: i64) -> (s: String)
    ensures
        s@ == member_not_found(id),
{
    let number = decimal_text(id);
    join3("Member with ID ", number.as_str(), " not found")
}

pub fn group_closed_text(id: i64) -> (s: String)
    ensures
        s@ == group_closed(id),
{
    let number = decimal_text(id);
    join3("Group with ID ", number.as_str(), " does not accept new members")
}

pub fn group_full_text(limit: i64) -> (s: String)
    ensures
        s@ == group_full(limit),
{
    let number = decimal_text(limit);
    join3("Group size limit of ", number.as_str(), " has been reached")
}

pub fn missing_row_text() -> (s: String)
    ensures
        s@ == missing_row(),
{
    String::from_str("no rows returned by a query that expected to return at least one row")
}

pub fn unexpected_reply_text() -> (s: String)
    ensures
        s@ == unexpected_reply(),
{
    String::from_str("unexpected reply from the store")
}

pub fn duplicate_event_text() -> (s: String)
    ensures
        s@ == duplicate_event(),
{
    String::from_str("an event with this id exists already")
}

pub fn ids_exhausted_text() -> (s: String)
    ensures
        s@ == ids_exhausted(),
{
    String::from_str("no fresh id is left")
}

pub fn transaction_open_text() -> (s: String)
    ensures
        s@ == transaction_open(),
{
    String::from_str("a transaction is open already")
}

pub fn no_transaction_text() -> (s: String)
    ensures
        s@ == no_transaction(),
{
    String::from_str("no transaction is open")
}

pub fn negative_limit_text() -> (s: String)
    ensures
        s@ == negative_limit(),
{
    String::from_str("group_size_limit must not be negative")
}

pub fn bad_page_text() -> (s: String)
    ensures
        s@ == bad_page(),
{
    String::from_str("page must be at least 1 and its offset must fit in 63 bits")
}

} // verus!
