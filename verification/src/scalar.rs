//! The two operations that the library asks of a coordinate type, as
//! relations between the operands and the result.
//!
//! For an integer type the relations are the usual functions. For a
//! floating-point type they say no more than that the result came from that
//! operation on those operands.

use core::ops::{Div, Mul};
use vstd::prelude::*;

verus! {

/// `x / dpi` may be evaluated.
pub open spec fn can_divide<C: Div<Output = C>>(x: C, dpi: C) -> bool {
    call_requires(<C as Div>::div, (x, dpi))
}

/// `q` is a value of `x / dpi`.
pub open spec fn is_quotient<C: Div<Output = C>>(x: C, dpi: C, q: C) -> bool {
    call_ensures(<C as Div>::div, (x, dpi), q)
}

/// `x * dpi` may be evaluated.
pub open spec fn can_multiply<C: Mul<Output = C>>(x: C, dpi: C) -> bool {
    call_requires(<C as Mul>::mul, (x, dpi))
}

/// `m` is a value of `x * dpi`.
pub open spec fn is_product<C: Mul<Output = C>>(x: C, dpi: C, m: C) -> bool {
    call_ensures(<C as Mul>::mul, (x, dpi), m)
}

} // verus!
