//! A shared counter's arithmetic: single steps, repeated steps, and the
//! fact that matching numbers of increments and decrements cancel out.
//!
//! The surrounding program may hand these steps to concurrent threads
//! behind a lock; the step and its accounting are what is proved here.

use vstd::prelude::*;

verus! {

/// One increment of the counter.
pub fn increment(value: i64) -> (r: i64)
    requires
        value < i64::MAX,
    ensures
        r == value + 1,
{
    value + 1
}

/// One decrement of the counter.
pub fn decrement(value: i64) -> (r: i64)
    requires
        value > i64::MIN,
    ensures
        r == value - 1,
{
    value - 1
}

/// Increments the counter `rounds` times.
pub fn increment_n(start: i64, rounds: u32) -> (r: i64)
    requires
        start + rounds <= i64::MAX,
    ensures
        r == start + rounds,
{
    let mut value = start;
    let mut i: u32 = 0;
    while i < rounds
        invariant
            i <= rounds,
            value == start + i,
            start + rounds <= i64::MAX,
        decreases rounds - i,
    {
        value = increment(value);
        i += 1;
    }
    value
}

/// Decrements the counter `rounds` times.
pub fn decrement_n(start: i64, rounds: u32) -> (r: i64)
    requires
        start - rounds >= i64::MIN,
    ensures
        r == start - rounds,
{
    let mut value = start;
    let mut i: u32 = 0;
    while i < rounds
        invariant
            i <= rounds,
            value == start - i,
            start - rounds >= i64::MIN,
        decreases rounds - i,
    {
        value = decrement(value);
        i += 1;
    }
    value
}

/// Run serially, `rounds` increments followed by `rounds` decrements
/// leave the counter exactly where it started.
pub fn edit_war_serial(start: i64, rounds: u32) -> (r: i64)
    requires
        start + rounds <= i64::MAX,
    ensures
        r == start,
{
    let raised = increment_n(start, rounds);
    decrement_n(raised, rounds)
}

/// A value to be shared across threads. A plain borrow cannot cross a
/// thread boundary, so the owner hands out the value itself and lets
/// shared-ownership handles keep it alive.
pub fn shared_reference() -> (r: String)
    ensures
        r@ == "hello"@,
{
    let string = String::from_str("hello");
    string
}

} // verus!
