//! Views into dynamically-sized data: a prefix of a string taken as a
//! borrowed slice, the first character of a string, and a prefix of an
//! integer slice. A slice carries its length at run time, so each
//! helper demands that the requested region really lies inside.

use vstd::prelude::*;

verus! {

/// The first `n` characters of an ASCII string, as a borrowed view.
pub fn prefix_ascii<'a>(s: &'a str, n: usize) -> (r: &'a str)
    requires
        s.is_ascii(),
        n <= s@.len(),
    ensures
        r@ == s@.subrange(0, n as int),
{
    s.substring_ascii(0, n)
}

/// The first character of a non-empty string.
pub fn first_char(s: &str) -> (r: char)
    requires
        s@.len() > 0,
    ensures
        r == s@[0],
{
    s.get_char(0)
}

/// The first `n` numbers of a slice, copied into an owned buffer.
pub fn prefix_of_slice(values: &[i32], n: usize) -> (r: Vec<i32>)
    requires
        n <= values@.len(),
    ensures
        r@ == values@.subrange(0, n as int),
{
    let mut out: Vec<i32> = Vec::new();
    let mut i: usize = 0;
    while i < n
        invariant
            i <= n,
            n <= values@.len(),
            out@ =~= values@.subrange(0, i as int),
        decreases n - i,
    {
        out.push(values[i]);
        i += 1;
    }
    out
}

} // verus!
