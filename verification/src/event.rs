//! Input events as the wrapped window reports them, and as the application
//! is to see them.

use crate::scalar::{can_divide, is_quotient};
use core::ops::Div;
use input::{ButtonArgs, CloseArgs, ControllerAxisArgs, FileDrag, TouchArgs};
use vstd::prelude::*;

verus! {

/// `input::ButtonArgs`, the arguments of a button event. Nothing is said of
/// what a value holds: events carry it through unread.
#[verifier::external_type_specification]
#[verifier::external_body]
pub struct ExButtonArgs(input::ButtonArgs);

/// `input::CloseArgs`, the arguments of a close event. Nothing is said of
/// what a value holds: events carry it through unread.
#[verifier::external_type_specification]
#[verifier::external_body]
pub struct ExCloseArgs(input::CloseArgs);

/// `input::ControllerAxisArgs`, the arguments of a controller axis event.
/// Nothing is said of what a value holds: events carry it through unread.
#[verifier::external_type_specification]
#[verifier::external_body]
pub struct ExControllerAxisArgs(input::ControllerAxisArgs);

/// `input::FileDrag`, a file dragged over or dropped into the window.
/// Nothing is said of what a value holds: events carry it through unread.
#[verifier::external_type_specification]
#[verifier::external_body]
pub struct ExFileDrag(input::FileDrag);

/// `input::TouchArgs`, the arguments of a touch event. Nothing is said of
/// what a value holds: events carry it through unread.
#[verifier::external_type_specification]
#[verifier::external_body]
pub struct ExTouchArgs(input::TouchArgs);

/// A motion, by the device that moved.
#[derive(Debug, PartialEq)]
pub enum Motion<C> {
    /// The mouse cursor is at this position, in window coordinates.
    MouseCursor([C; 2]),
    /// The mouse moved by this much, in window coordinates.
    MouseRelative([C; 2]),
    /// The mouse wheel scrolled by this much.
    MouseScroll([C; 2]),
    /// An axis of a controller moved.
    ControllerAxis(ControllerAxisArgs),
    /// A touch started, moved or ended.
    Touch(TouchArgs),
}

/// The sizes that a resized window has.
#[derive(Debug, PartialEq)]
pub struct ResizeArgs<C> {
    /// Width and height in window coordinates.
    pub window_size: [C; 2],
    /// Width and height in pixels of the frame buffer.
    pub draw_size: [u32; 2],
}

/// An input event of a window.
#[derive(Debug, PartialEq)]
pub enum Input<C> {
    /// A button was pressed or released.
    Button(ButtonArgs),
    /// Something moved.
    Move(Motion<C>),
    /// Text was entered.
    Text(String),
    /// The window was resized.
    Resize(ResizeArgs<C>),
    /// The window got the focus, or lost it.
    Focus(bool),
    /// The cursor entered the window, or left it.
    Cursor(bool),
    /// A file was dragged over the window or dropped into it.
    FileDrag(FileDrag),
    /// The window was asked to close.
    Close(CloseArgs),
}

/// `q` is `p` with both coordinates divided by `dpi`.
///
/// The last line says that a pair is made of its two coordinates, so that
/// `q` can be equated with a pair that a caller writes down.
pub open spec fn is_quotient_pair<C: Div<Output = C>>(p: [C; 2], dpi: C, q: [C; 2]) -> bool {
    &&& is_quotient(p[0], dpi, q[0])
    &&& is_quotient(p[1], dpi, q[1])
    &&& q == [q[0], q[1]]
}

/// `e` carries a position, a delta or a size in window coordinates.
pub open spec fn has_window_coordinates<C>(e: Input<C>) -> bool {
    match e {
        Input::Move(Motion::MouseCursor(_)) => true,
        Input::Move(Motion::MouseRelative(_)) => true,
        Input::Move(Motion::MouseScroll(_)) => true,
        Input::Resize(_) => true,
        Input::Move(Motion::ControllerAxis(_)) | Input::Move(Motion::Touch(_)) => false,
        Input::Button(_) | Input::Text(_) | Input::Focus(_) | Input::Cursor(_) => false,
        Input::FileDrag(_) | Input::Close(_) => false,
    }
}

/// `holds` is true of every window coordinate that `e` carries.
pub open spec fn each_window_coordinate<C>(e: Input<C>, holds: spec_fn(C) -> bool) -> bool {
    match e {
        Input::Move(Motion::MouseCursor(p)) => holds(p[0]) && holds(p[1]),
        Input::Move(Motion::MouseRelative(p)) => holds(p[0]) && holds(p[1]),
        Input::Move(Motion::MouseScroll(p)) => holds(p[0]) && holds(p[1]),
        Input::Resize(args) => holds(args.window_size[0]) && holds(args.window_size[1]),
        Input::Move(Motion::ControllerAxis(_)) | Input::Move(Motion::Touch(_)) => true,
        Input::Button(_) | Input::Text(_) | Input::Focus(_) | Input::Cursor(_) => true,
        Input::FileDrag(_) | Input::Close(_) => true,
    }
}

/// Every window coordinate that `e` carries may be divided by `dpi`.
pub open spec fn can_map<C: Div<Output = C>>(dpi: C, e: Input<C>) -> bool {
    each_window_coordinate(e, |x: C| can_divide(x, dpi))
}

/// `r` is `e` as the application is to see it under the factor `dpi`.
///
/// A mouse position, a relative mouse motion and a scroll are events of the
/// same kind with both coordinates divided by `dpi`. A resize keeps its draw
/// size, which counts pixels of the frame buffer, and has both coordinates of
/// its window size divided by `dpi`. Every other event is as it was.
pub open spec fn mapped<C: Div<Output = C>>(dpi: C, e: Input<C>, r: Input<C>) -> bool {
    match e {
        Input::Move(Motion::MouseCursor(p)) => {
            r matches Input::Move(Motion::MouseCursor(q)) && is_quotient_pair(p, dpi, q)
        },
        Input::Move(Motion::MouseRelative(p)) => {
            r matches Input::Move(Motion::MouseRelative(q)) && is_quotient_pair(p, dpi, q)
        },
        Input::Move(Motion::MouseScroll(p)) => {
            r matches Input::Move(Motion::MouseScroll(q)) && is_quotient_pair(p, dpi, q)
        },
        Input::Resize(args) => {
            &&& r matches Input::Resize(seen)
            &&& seen.draw_size == args.draw_size
            &&& is_quotient_pair(args.window_size, dpi, seen.window_size)
        },
        Input::Move(Motion::ControllerAxis(_)) | Input::Move(Motion::Touch(_)) => r == e,
        Input::Button(_) | Input::Text(_) | Input::Focus(_) | Input::Cursor(_) => r == e,
        Input::FileDrag(_) | Input::Close(_) => r == e,
    }
}

/// Rewrites an event of the wrapped window for the application: what it
/// carries in window coordinates is divided by `dpi`, and nothing else is
/// touched.
pub fn map_input<C: Copy + Div<Output = C>>(dpi: C, e: Input<C>) -> (r: Input<C>)
    requires
        can_map(dpi, e),
    ensures
        mapped(dpi, e, r),
        !has_window_coordinates(e) ==> r == e,
{
    match e {
        Input::Focus(_)
        | Input::Cursor(_)
        | Input::Move(Motion::Touch(_))
        | Input::Move(Motion::ControllerAxis(_))
        | Input::Button(_)
        | Input::Text(_)
        | Input::FileDrag(_)
        | Input::Close(_) => e,
        Input::Move(Motion::MouseCursor(pos)) => {
            Input::Move(Motion::MouseCursor([pos[0] / dpi, pos[1] / dpi]))
        },
        Input::Move(Motion::MouseRelative(pos)) => {
            Input::Move(Motion::MouseRelative([pos[0] / dpi, pos[1] / dpi]))
        },
        Input::Move(Motion::MouseScroll(pos)) => {
            Input::Move(Motion::MouseScroll([pos[0] / dpi, pos[1] / dpi]))
        },
        Input::Resize(args) => Input::Resize(
            ResizeArgs {
                draw_size: args.draw_size,
                window_size: [args.window_size[0] / dpi, args.window_size[1] / dpi],
            },
        ),
    }
}

} // verus!
