//! Squaring a number, alone and over a whole list of inputs.
//!
//! The surrounding program may run these computations eagerly or wrap
//! them in deferred tasks; the arithmetic itself is what is proved here.

use vstd::prelude::*;

verus! {

/// Squares a single number.
pub fn sqr(input: u64) -> (r: u64)
    requires
        input * input <= u64::MAX,
    ensures
        r == input * input,
{
    input * input
}

/// Squares every number of a list, keeping the order.
pub fn sqr_all(inputs: &Vec<u64>) -> (r: Vec<u64>)
    requires
        forall|i: int| 0 <= i < inputs@.len() ==> inputs@[i] * inputs@[i] <= u64::MAX,
    ensures
        r@.len() == inputs@.len(),
        forall|i: int| 0 <= i < r@.len() ==> r@[i] == inputs@[i] * inputs@[i],
{
    let mut out: Vec<u64> = Vec::new();
    let mut i: usize = 0;
    while i < inputs.len()
        invariant
            i <= inputs@.len(),
            out@.len() == i,
            forall|j: int| 0 <= j < inputs@.len() ==> inputs@[j] * inputs@[j] <= u64::MAX,
            forall|j: int| 0 <= j < i ==> out@[j] == inputs@[j] * inputs@[j],
        decreases inputs@.len() - i,
    {
        let v = sqr(inputs[i]);
        out.push(v);
        i += 1;
    }
    out
}

} // verus!
