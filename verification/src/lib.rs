//! Core logic of a minimal windowed GPU application: the surface
//! configuration it maintains (format and present-mode selection, resizing)
//! and the event-dispatch state machine that routes window events and maps
//! frame outcomes to loop-control decisions.
//!
//! The platform layer (window creation, GPU device acquisition, the actual
//! event loop) lives outside this crate and drives these types with plain
//! values.

pub mod dispatch;
pub mod surface;
