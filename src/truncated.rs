//! Division and remainder as Rust's integer operators compute them: the
//! quotient is rounded toward zero and the remainder takes the sign of the
//! dividend.
use vstd::prelude::*;

verus! {

/// Quotient of `a` by a positive `b`, rounded toward zero.
pub open spec fn trunc_div(a: int, b: int) -> int
    recommends
        b > 0,
{
    if a >= 0 {
        a / b
    } else {
        -((-a) / b)
    }
}

/// Remainder that goes with `trunc_div`: `a == b * trunc_div(a, b) + trunc_rem(a, b)`.
pub open spec fn trunc_rem(a: int, b: int) -> int
    recommends
        b > 0,
{
    a - b * trunc_div(a, b)
}

} // verus!
