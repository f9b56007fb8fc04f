//! Control plane of a desktop update launcher.
//!
//! The crate coordinates three things: a typed command/event bus between the
//! UI thread and a background patching worker, a dispatcher that turns opaque
//! UI messages into typed actions, and a cross-platform process-launch
//! planner that picks an elevation verb and resolves the target path.
//! Everything that decides or computes lives here with a contract; the thin
//! driver around it (window loop, process spawning, file deletion, dialogs)
//! consumes the plans and actions this crate produces.

pub mod bus;
pub mod config;
pub mod dispatch;
pub mod json;
pub mod session;
pub mod process;
pub mod strutil;
pub mod ui;
