//! Verified core of a layer-shell overlay window: the size, scale and pointer
//! model, the render adapter's dirty-flag state machine, the surface's
//! configure handshake, the binding of the required protocol globals, the
//! rendering-context state machine and the event-loop schedule.
//!
//! Every effect (protocol requests, GPU calls, UI-framework events) is
//! described by a value that the library hands back; the caller performs it.
pub mod geometry;
pub mod errors;
pub mod femtovg_window;
pub mod config;
pub mod builder;
pub mod state;
pub mod state_builder;
pub mod egl_context;
pub mod binder;
pub mod event_loop;
pub mod windowing;
