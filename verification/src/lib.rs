//! Automatic pointer-lock daemon core: the decision logic that engages and
//! releases a pointer constraint while a full-screen, cursor-hiding
//! application is active on a Wayland session with an X11 compatibility
//! layer.
//!
//! This crate holds the verified core: the geometry resolver that picks a
//! lock target, the trigger detector with its debouncer, the constraint
//! state machine, the recenter-worker model, and the parser for the
//! optional monitor-layout file. All display-server traffic, X11 queries,
//! file and environment reads, and threading live outside, in the thin
//! host around this library; they hand plain values in and take plain
//! values and decisions back.

pub mod bindings;
pub mod bytes;
pub mod detector;
pub mod geometry;
pub mod layout;
pub mod lock;
pub mod procscan;
pub mod resolver;
pub mod worker;
