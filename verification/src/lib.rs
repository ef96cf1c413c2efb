//! A minimal desktop-shell library: a single-window application controller,
//! a window lifecycle controller that restores and persists window geometry,
//! and a settings-store model the geometry round-trips through.
//!
//! The GUI toolkit, the display, and the real settings service are external
//! collaborators driven by an unverified front end; this crate holds the
//! decisions they delegate: the one-window policy, the geometry round-trip,
//! and the close/quit ordering.

pub mod application;
pub mod error;
pub mod settings;
pub mod window;
