//! Small shared helpers.

use vstd::prelude::*;

verus! {

/// String equality on `&str`, with its meaning stated over the views.
pub fn str_eq(a: &str, b: &str) -> (r: bool)
    ensures
        r == (a@ == b@),
{
    let sa: String = a.to_owned();
    let sb: String = b.to_owned();
    sa == sb
}

} // verus!
