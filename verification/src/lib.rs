//! The decisions of a small desktop shell, kept apart from the windowing host.
//!
//! The shell owns one window. At startup it looks the window up, pins it above
//! all others and strips its decorations; afterwards it answers one command,
//! which closes the window. Every one of these steps is carried out by the
//! host. This crate decides which step comes next, what is asked of the host,
//! and what is reported when the host declines. Its caller carries each
//! request to the host and each answer back.
//!
//! - [`host`]: the requests, the answers, and what a request does to the
//!   window.
//! - [`setup`]: the startup sequence, one stage at a time.
//! - [`error`]: why startup was given up, and the wording of it.
//! - [`command`]: the close command.
//! - [`trace`]: whole runs of startup, and what holds of all of them.

pub mod command;
pub mod error;
pub mod host;
pub mod setup;
pub mod trace;
