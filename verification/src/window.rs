//! The wrapper: a window and the DPI factor under which the application
//! sees it.
//!
//! The wrapper asks its window and answers the application. What it asks is
//! not the library's matter. What it answers is: each method here takes what
//! the window answered and gives what the application is told.

use crate::event::{can_map, map_input, mapped, Input};
use crate::scalar::can_divide;
use crate::size::{logical_size, shrunk, Size};
use core::ops::Div;
use input::TimeStamp;
use vstd::prelude::*;

verus! {

/// Wraps a window to simulate a Hi-DPI screen.
pub struct FakeDpiWindow<W, C> {
    /// The wrapped window.
    pub inner: W,
    /// The DPI factor. It may be changed at any time, and the next answer
    /// goes by the new value.
    pub dpi: C,
}

impl<W, C> FakeDpiWindow<W, C> {
    /// The wrapper, for what building the window to wrap gave: a window
    /// that was built is wrapped with the factor `dpi`, and a failure is
    /// handed on as it is.
    pub fn from_built<E>(built: Result<W, E>, dpi: C) -> (r: Result<Self, E>)
        ensures
            match built {
                Ok(inner) => r == Ok::<Self, E>((FakeDpiWindow { inner, dpi })),
                Err(e) => r == Err::<Self, E>(e),
            },
    {
        match built {
            Ok(inner) => Ok(FakeDpiWindow { inner, dpi }),
            Err(e) => Err(e),
        }
    }
}

impl<W, C: Copy + Div<Output = C>> FakeDpiWindow<W, C> {
    /// The size that the application is told, where the wrapped window
    /// reports `inner_size`: width and height divided by the factor in use.
    pub fn size(&self, inner_size: Size<C>) -> (r: Size<C>)
        requires
            can_divide(inner_size.width, self.dpi),
            can_divide(inner_size.height, self.dpi),
        ensures
            shrunk(self.dpi, inner_size, r),
    {
        logical_size(self.dpi, inner_size)
    }

    /// What the application gets from a blocking wait, where the wrapped
    /// window's wait returned `inner_event`: the event is rewritten under
    /// the factor in use, the time stamp is kept.
    pub fn wait_event(&self, inner_event: (Input<C>, Option<TimeStamp>)) -> (r: (
        Input<C>,
        Option<TimeStamp>,
    ))
        requires
            can_map(self.dpi, inner_event.0),
        ensures
            mapped(self.dpi, inner_event.0, r.0),
            r.1 == inner_event.1,
    {
        let (e, t) = inner_event;
        (map_input(self.dpi, e), t)
    }

    /// What the application gets from a bounded wait, where the wrapped
    /// window's bounded wait returned `inner_event`: no event in time stays
    /// no event, and an event is rewritten as by [`Self::wait_event`].
    pub fn wait_event_timeout(&self, inner_event: Option<(Input<C>, Option<TimeStamp>)>) -> (r:
        Option<(Input<C>, Option<TimeStamp>)>)
        requires
            inner_event matches Some(event) ==> can_map(self.dpi, event.0),
        ensures
            match inner_event {
                Some(event) => {
                    &&& r matches Some(seen)
                    &&& mapped(self.dpi, event.0, seen.0)
                    &&& seen.1 == event.1
                },
                None => r is None,
            },
    {
        match inner_event {
            Some((e, t)) => Some((map_input(self.dpi, e), t)),
            None => None,
        }
    }

    /// What the application gets from a poll, where the wrapped window's
    /// poll returned `inner_event`: no event stays no event, and an event is
    /// rewritten as by [`Self::wait_event`].
    pub fn poll_event(&self, inner_event: Option<(Input<C>, Option<TimeStamp>)>) -> (r: Option<
        (Input<C>, Option<TimeStamp>),
    >)
        requires
            inner_event matches Some(event) ==> can_map(self.dpi, event.0),
        ensures
            match inner_event {
                Some(event) => {
                    &&& r matches Some(seen)
                    &&& mapped(self.dpi, event.0, seen.0)
                    &&& seen.1 == event.1
                },
                None => r is None,
            },
    {
        match inner_event {
            Some((e, t)) => Some((map_input(self.dpi, e), t)),
            None => None,
        }
    }
}

} // verus!
