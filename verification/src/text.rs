//! Exact text comparison, stated over character views.

use vstd::prelude::*;

verus! {

/// Exact, case-sensitive equality of two text values.
pub fn str_eq(a: &str, b: &str) -> (r: bool)
    ensures
        r == (a@ == b@),
{
    let x: String = a.to_owned();
    let y: String = b.to_owned();
    x == y
}

} // verus!
