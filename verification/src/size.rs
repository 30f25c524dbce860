//! Window sizes, the size at which a wrapped window is built and the size
//! that the application is told.

use crate::scalar::{can_divide, can_multiply, is_product, is_quotient};
use core::ops::{Div, Mul};
use vstd::prelude::*;

verus! {

/// The size of a window, in window coordinates.
#[derive(Debug, PartialEq)]
pub struct Size<C> {
    /// How wide the window is.
    pub width: C,
    /// How high the window is.
    pub height: C,
}

impl<C: Copy> Clone for Size<C> {
    fn clone(&self) -> (r: Self)
        ensures
            r == *self,
    {
        *self
    }
}

impl<C: Copy> Copy for Size<C> {}

/// The DPI factor that a wrapped window starts with.
pub const DEFAULT_DPI: u8 = 2;

/// `dpi` is a value of the conversion of [`DEFAULT_DPI`] into `C`.
pub open spec fn is_default_dpi<C: From<u8>>(dpi: C) -> bool {
    call_ensures(<C as From<u8>>::from, (DEFAULT_DPI,), dpi)
}

/// `physical` is `logical` with both dimensions multiplied by `dpi`.
pub open spec fn magnified<C: Mul<Output = C>>(dpi: C, logical: Size<C>, physical: Size<C>) -> bool {
    &&& is_product(logical.width, dpi, physical.width)
    &&& is_product(logical.height, dpi, physical.height)
}

/// `logical` is `physical` with both dimensions divided by `dpi`.
pub open spec fn shrunk<C: Div<Output = C>>(dpi: C, physical: Size<C>, logical: Size<C>) -> bool {
    &&& is_quotient(physical.width, dpi, logical.width)
    &&& is_quotient(physical.height, dpi, logical.height)
}

/// The DPI factor that a wrapped window starts with, in the coordinate type.
pub fn default_dpi<C: From<u8>>() -> (dpi: C)
    ensures
        is_default_dpi(dpi),
{
    C::from(DEFAULT_DPI)
}

/// The size at which the wrapped window is built, for the size that the
/// application's settings declare: width and height are each multiplied by
/// `dpi`.
pub fn physical_size<C: Copy + Mul<Output = C>>(dpi: C, logical: Size<C>) -> (physical: Size<C>)
    requires
        can_multiply(logical.width, dpi),
        can_multiply(logical.height, dpi),
    ensures
        magnified(dpi, logical, physical),
{
    Size { width: logical.width * dpi, height: logical.height * dpi }
}

/// The size that the application is told, for the size that the wrapped
/// window reports: width and height are each divided by `dpi`. Nothing is
/// kept between calls, so a changed factor shows in the next answer.
pub fn logical_size<C: Copy + Div<Output = C>>(dpi: C, physical: Size<C>) -> (logical: Size<C>)
    requires
        can_divide(physical.width, dpi),
        can_divide(physical.height, dpi),
    ensures
        shrunk(dpi, physical, logical),
{
    Size { width: physical.width / dpi, height: physical.height / dpi }
}

} // verus!
