//! The decision core of a small sprite-comparison viewer.
//!
//! The viewer shows one of two grid images, switches between them when the
//! space bar is pressed, and keeps a label with the current window size.
//! Everything here is a pure function from plain values to plain values: the
//! host that owns the window, the assets and the frame loop calls in and
//! carries the answers out.

pub mod scene;
pub mod state;
pub mod status;
