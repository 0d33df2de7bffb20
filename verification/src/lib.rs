//! Core of a minimal GPU-presented windowing toolkit.
//!
//! The crate verifies the logic that drives a single window: a typed
//! publish/subscribe event bus, the presentation state of the window
//! surface (size, surface configuration, pointer-driven translation of
//! the drawn quad), the per-frame geometry and the frame-loop policy
//! that decides, for every platform event, whether to render, resize,
//! reconfigure or leave the loop.  An unverified shell owns the native
//! window and GPU handles and applies the decisions made here.

pub mod event;
pub mod platform;
pub mod renderer;
pub mod widget;
pub mod window;
