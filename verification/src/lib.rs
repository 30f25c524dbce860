//! The arithmetic of a window wrapper that simulates a Hi-DPI screen.
//!
//! The wrapper builds its window larger than the application asked for, by a
//! DPI factor, and divides by that factor whatever the window reports in
//! window coordinates: its size, mouse positions and deltas, scroll deltas
//! and the window size of a resize. The application then sees the size it
//! asked for, while it draws into a frame buffer with more pixels.
//!
//! * [`window`] holds the wrapper, [`FakeDpiWindow`], and what it answers.
//! * [`size`] holds the sizes: [`physical_size`] for building the window,
//!   [`logical_size`] for reporting its size, [`default_dpi`] for the factor
//!   that a new wrapper starts with.
//! * [`event`] holds the input events and [`map_input`], which rewrites one
//!   for the application.
//! * [`laws`] holds what follows for sizes and events from what is known of
//!   single coordinates.
//! * [`scalar`] names the two operations that all of this rests on.
//!
//! Everything is generic in the coordinate type `C`, of which only `*` and
//! `/` are used. The contracts say which coordinate was multiplied or divided
//! by which factor, for every such type. What the digits of a product or a
//! quotient are is the coordinate type's own matter.

pub mod event;
pub mod laws;
pub mod scalar;
pub mod size;
pub mod window;

pub use event::{map_input, Input, Motion, ResizeArgs};
pub use size::{default_dpi, logical_size, physical_size, Size, DEFAULT_DPI};
pub use window::FakeDpiWindow;
