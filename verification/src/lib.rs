//! A fixed-width vertical scrollbar for immediate-mode user interfaces.
//!
//! The control maps a position between zero and one to a handle inside a
//! track. This crate holds its rules: how a position is clamped, what a drag
//! and a scroll gesture do to it, and where the track and the handle are
//! drawn. Numbers are binary32 values held by their encoding ([`Scalar`]).
//! The crate compares and selects them; the host toolkit lays out the region,
//! reads the input, paints, and brings the arithmetic on coordinates, which
//! [`FixedScrollbar::ui`] calls where a formula needs it.

pub mod formulas;
pub mod laws;
pub mod number;
pub mod scalar;
pub mod scrollbar;
pub mod widget;

pub use formulas::Operation;
pub use number::Parts;
pub use scalar::Scalar;
pub use scrollbar::{FixedScrollbar, FrameInput, ScrollRequest, State};
pub use widget::{Edges, Gestures, Picture, Rectangle, Region};
