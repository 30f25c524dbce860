//! What holds of sizes and events together, for every coordinate type.
//!
//! Coordinates are usually floating-point numbers, whose products and
//! quotients are rounded. A law that takes a product or a quotient back
//! therefore speaks of a relation `near` between the coordinate that went in
//! and the one that came out: it assumes of single coordinates what it
//! concludes of sizes and events. `near(x, y)` reads: `y` is near `x`.

use crate::event::{each_window_coordinate, has_window_coordinates, mapped, Input, Motion};
use crate::scalar::{is_product, is_quotient};
use crate::size::{magnified, shrunk, Size};
use core::ops::{Div, Mul};
use vstd::prelude::*;

verus! {

/// Every product of `x` by `dpi`, divided by `dpi` again, is near `x`.
pub open spec fn product_divides_back<C: Mul<Output = C> + Div<Output = C>>(
    x: C,
    dpi: C,
    near: spec_fn(C, C) -> bool,
) -> bool {
    forall|m: C, q: C|
        #[trigger] is_product(x, dpi, m) && #[trigger] is_quotient(m, dpi, q) ==> near(x, q)
}

/// Every quotient of `x` by `dpi`, multiplied by `dpi` again, is near `x`.
pub open spec fn quotient_multiplies_back<C: Mul<Output = C> + Div<Output = C>>(
    x: C,
    dpi: C,
    near: spec_fn(C, C) -> bool,
) -> bool {
    forall|q: C, m: C|
        #[trigger] is_quotient(x, dpi, q) && #[trigger] is_product(q, dpi, m) ==> near(x, m)
}

/// Every quotient of `x` by `dpi`, divided by `inverse`, is near `x`.
pub open spec fn quotient_divides_back<C: Div<Output = C>>(
    x: C,
    dpi: C,
    inverse: C,
    near: spec_fn(C, C) -> bool,
) -> bool {
    forall|q: C, z: C|
        #[trigger] is_quotient(x, dpi, q) && #[trigger] is_quotient(q, inverse, z) ==> near(x, z)
}

/// Every quotient of `x` by `unit` is `x`.
pub open spec fn divides_into_itself<C: Div<Output = C>>(x: C, unit: C) -> bool {
    forall|q: C| #[trigger] is_quotient(x, unit, q) ==> q == x
}

/// `x` has one quotient by `dpi` only.
pub open spec fn has_one_quotient<C: Div<Output = C>>(x: C, dpi: C) -> bool {
    forall|q: C, other: C|
        #[trigger] is_quotient(x, dpi, q) && #[trigger] is_quotient(x, dpi, other) ==> q == other
}

/// Both coordinates of `q` are near those of `p`.
pub open spec fn pair_near<C>(p: [C; 2], q: [C; 2], near: spec_fn(C, C) -> bool) -> bool {
    near(p[0], q[0]) && near(p[1], q[1])
}

/// Both dimensions of `b` are near those of `a`.
pub open spec fn size_near<C>(a: Size<C>, b: Size<C>, near: spec_fn(C, C) -> bool) -> bool {
    near(a.width, b.width) && near(a.height, b.height)
}

/// `r` is the event `e` but for its window coordinates, and these are near
/// those of `e`.
pub open spec fn input_near<C>(e: Input<C>, r: Input<C>, near: spec_fn(C, C) -> bool) -> bool {
    match e {
        Input::Move(Motion::MouseCursor(p)) => {
            r matches Input::Move(Motion::MouseCursor(q)) && pair_near(p, q, near)
        },
        Input::Move(Motion::MouseRelative(p)) => {
            r matches Input::Move(Motion::MouseRelative(q)) && pair_near(p, q, near)
        },
        Input::Move(Motion::MouseScroll(p)) => {
            r matches Input::Move(Motion::MouseScroll(q)) && pair_near(p, q, near)
        },
        Input::Resize(args) => {
            &&& r matches Input::Resize(other)
            &&& other.draw_size == args.draw_size
            &&& pair_near(args.window_size, other.window_size, near)
        },
        Input::Move(Motion::ControllerAxis(_)) | Input::Move(Motion::Touch(_)) => r == e,
        Input::Button(_) | Input::Text(_) | Input::Focus(_) | Input::Cursor(_) => r == e,
        Input::FileDrag(_) | Input::Close(_) => r == e,
    }
}

/// A window built at the magnified size reports the size that was asked
/// for, as nearly as a width and a height come back from being multiplied by
/// the factor and divided by it again.
///
/// Where the width and the height of `declared`, multiplied by `dpi` and
/// divided by `dpi` again, come out near themselves, the logical size of the
/// physical size of `declared` is near `declared`.
pub proof fn lemma_built_size_is_declared<C: Mul<Output = C> + Div<Output = C>>(
    dpi: C,
    declared: Size<C>,
    physical: Size<C>,
    reported: Size<C>,
    near: spec_fn(C, C) -> bool,
)
    requires
        magnified(dpi, declared, physical),
        shrunk(dpi, physical, reported),
        product_divides_back(declared.width, dpi, near),
        product_divides_back(declared.height, dpi, near),
    ensures
        size_near(declared, reported, near),
{
}

/// With whole-number coordinates nothing is rounded when a product is
/// divided again: a window built at the magnified size reports exactly the
/// size that was asked for.
pub proof fn lemma_built_size_is_declared_in_whole_numbers(
    dpi: u64,
    declared: Size<u64>,
    physical: Size<u64>,
    reported: Size<u64>,
)
    requires
        dpi != 0,
        declared.width * dpi <= u64::MAX,
        declared.height * dpi <= u64::MAX,
        magnified(dpi, declared, physical),
        shrunk(dpi, physical, reported),
    ensures
        reported == declared,
{
    let same = |x: u64, q: u64| q == x;
    assert(product_divides_back(declared.width, dpi, same)) by {
        assert((declared.width * dpi) / (dpi as int) == declared.width) by (nonlinear_arith)
            requires
                dpi != 0,
        ;
    }
    assert(product_divides_back(declared.height, dpi, same)) by {
        assert((declared.height * dpi) / (dpi as int) == declared.height) by (nonlinear_arith)
            requires
                dpi != 0,
        ;
    }
    lemma_built_size_is_declared(dpi, declared, physical, reported, same);
}

/// The size that the application is told, magnified by the factor in use,
/// is the size of the wrapped window, as nearly as a width and a height come
/// back from being divided by the factor and multiplied by it again.
///
/// Where the width and the height of `physical`, divided by `dpi` and
/// multiplied by `dpi` again, come out near themselves, the physical size of
/// the logical size of `physical` is near `physical`.
pub proof fn lemma_reported_size_times_factor<C: Mul<Output = C> + Div<Output = C>>(
    dpi: C,
    physical: Size<C>,
    reported: Size<C>,
    back: Size<C>,
    near: spec_fn(C, C) -> bool,
)
    requires
        shrunk(dpi, physical, reported),
        magnified(dpi, reported, back),
        quotient_multiplies_back(physical.width, dpi, near),
        quotient_multiplies_back(physical.height, dpi, near),
    ensures
        size_near(physical, back, near),
{
}

/// A changed factor shows in the next reported size, in proportion, as
/// nearly as a width and a height come back from being divided by a factor
/// and multiplied by it again.
///
/// Let the wrapped window stay at `physical` while the factor goes from
/// `first` to `second`, and let `before` and `after` be the sizes reported
/// under the two. Where the width and the height of `physical`, divided by
/// either factor and multiplied by it again, come out near themselves,
/// `before` magnified by `first` and `after` magnified by `second` are both
/// near `physical`.
pub proof fn lemma_reported_size_follows_factor<C: Mul<Output = C> + Div<Output = C>>(
    first: C,
    second: C,
    physical: Size<C>,
    before: Size<C>,
    after: Size<C>,
    before_back: Size<C>,
    after_back: Size<C>,
    near: spec_fn(C, C) -> bool,
)
    requires
        shrunk(first, physical, before),
        shrunk(second, physical, after),
        magnified(first, before, before_back),
        magnified(second, after, after_back),
        quotient_multiplies_back(physical.width, first, near),
        quotient_multiplies_back(physical.height, first, near),
        quotient_multiplies_back(physical.width, second, near),
        quotient_multiplies_back(physical.height, second, near),
    ensures
        size_near(physical, before_back, near),
        size_near(physical, after_back, near),
{
    lemma_reported_size_times_factor(first, physical, before, before_back, near);
    lemma_reported_size_times_factor(second, physical, after, after_back, near);
}

/// An event has one image under a factor, where each of its window
/// coordinates has one quotient by that factor.
pub proof fn lemma_mapped_is_determined<C: Div<Output = C>>(
    dpi: C,
    e: Input<C>,
    r: Input<C>,
    other: Input<C>,
)
    requires
        mapped(dpi, e, r),
        mapped(dpi, e, other),
        each_window_coordinate(e, |x: C| has_one_quotient(x, dpi)),
    ensures
        r == other,
{
    match (r, other) {
        (Input::Move(Motion::MouseCursor(p)), Input::Move(Motion::MouseCursor(q))) => {
            assert(q =~= p);
        },
        (Input::Move(Motion::MouseRelative(p)), Input::Move(Motion::MouseRelative(q))) => {
            assert(q =~= p);
        },
        (Input::Move(Motion::MouseScroll(p)), Input::Move(Motion::MouseScroll(q))) => {
            assert(q =~= p);
        },
        (Input::Resize(seen), Input::Resize(also)) => {
            assert(also.window_size =~= seen.window_size);
        },
        _ => {},
    }
}

/// Events that carry no window coordinates are the same under every factor.
pub proof fn lemma_other_events_unchanged<C: Div<Output = C>>(dpi: C, e: Input<C>, r: Input<C>)
    requires
        mapped(dpi, e, r),
        !has_window_coordinates(e),
    ensures
        r == e,
{
}

/// Mapping under a factor and then under its inverse gives the event back,
/// as nearly as its window coordinates come back from being divided by the
/// one and then by the other.
///
/// Where every window coordinate of `e`, divided by `dpi` and then by
/// `inverse`, comes out near itself, the event mapped under `dpi` and then
/// under `inverse` is `e` but for its window coordinates, and these are near
/// those of `e`.
pub proof fn lemma_inverse_factor_undoes<C: Div<Output = C>>(
    dpi: C,
    inverse: C,
    e: Input<C>,
    there: Input<C>,
    back: Input<C>,
    near: spec_fn(C, C) -> bool,
)
    requires
        mapped(dpi, e, there),
        mapped(inverse, there, back),
        each_window_coordinate(e, |x: C| quotient_divides_back(x, dpi, inverse, near)),
    ensures
        input_near(e, back, near),
{
}

/// A factor that divides every window coordinate of an event into itself
/// does not change the event.
pub proof fn lemma_unit_factor_keeps_events<C: Div<Output = C>>(
    unit: C,
    e: Input<C>,
    r: Input<C>,
)
    requires
        mapped(unit, e, r),
        each_window_coordinate(e, |x: C| divides_into_itself(x, unit)),
    ensures
        r == e,
{
    match (e, r) {
        (Input::Move(Motion::MouseCursor(p)), Input::Move(Motion::MouseCursor(q))) => {
            assert(q =~= p);
        },
        (Input::Move(Motion::MouseRelative(p)), Input::Move(Motion::MouseRelative(q))) => {
            assert(q =~= p);
        },
        (Input::Move(Motion::MouseScroll(p)), Input::Move(Motion::MouseScroll(q))) => {
            assert(q =~= p);
        },
        (Input::Resize(args), Input::Resize(seen)) => {
            assert(seen.window_size =~= args.window_size);
        },
        _ => {},
    }
}

/// A factor that divides the width and the height of a size into themselves
/// does not change the size.
pub proof fn lemma_unit_factor_keeps_sizes<C: Div<Output = C>>(
    unit: C,
    physical: Size<C>,
    reported: Size<C>,
)
    requires
        shrunk(unit, physical, reported),
        divides_into_itself(physical.width, unit),
        divides_into_itself(physical.height, unit),
    ensures
        reported == physical,
{
}

} // verus!
