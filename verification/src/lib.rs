//! Application shell for a desktop color-picker utility.
//!
//! The crate models the application lifecycle: one-time startup
//! (icon, stylesheet, actions, accelerators), idempotent activation of a
//! singleton main window, the quit sequence, and the about dialog. The
//! lifecycle decisions live here with proved contracts; the surrounding
//! GUI toolkit performs the effects that the library hands out.

pub mod about;
pub mod color;
pub mod config;
pub mod effects;
pub mod lifecycle;
pub mod state;
