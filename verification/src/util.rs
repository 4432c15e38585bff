//! Small helpers of the components.
use vstd::prelude::*;

verus! {

/// `s` when `cond` holds, else the empty text; used to switch CSS classes on and off.
pub fn if_true<'a>(cond: bool, s: &'a str) -> (r: &'a str)
    ensures
        r@ == (if cond { s@ } else { ""@ }),
{
    if cond {
        s
    } else {
        ""
    }
}

} // verus!
