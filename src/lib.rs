//! Session lifecycle and event dispatch for a Matrix bot, as verified logic.
//!
//! The network and file work stays with the caller; this crate decides what
//! to do with what came back.

pub mod config;
pub mod text;
pub mod session;
pub mod sync;
pub mod lifecycle;
pub mod router;
