//! Core model of a tiling window manager: the client registry, the
//! tag/focus model, and the session state machine that classifies and
//! dispatches display-server events.
//!
//! The library is pure: all display-server I/O lives outside it and hands
//! in plain values (window identifiers, atoms, decoded events).

pub mod client;
pub mod tagset;
pub mod wm;
