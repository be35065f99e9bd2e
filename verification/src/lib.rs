//! The verified core of a provider-free operator cockpit.
//!
//! The cockpit shows what a serving authority projects, attaches observer panes to its sessions,
//! holds short exclusive control leases, and submits typed mutations that each leave a durable
//! receipt. Everything it decides is here; what it draws on, reads from and sends to is not.
//!
//! - [`protocol`] and [`backend`]: what is asked of the authority, and what its answers mean, with
//!   [`backend_laws`].
//! - [`state`]: what the cockpit knows, and every operation on it, with [`state_laws`],
//!   [`pane_laws`], [`stream_laws`] and [`selection_laws`].
//! - [`commands`], [`keys`] and [`interaction`]: what an operator can do, key by key and step by
//!   step, with [`interaction_laws`], [`command_laws`], [`key_laws`] and [`control_laws`].
//! - [`idempotency`]: the keys that tell interactions apart.
//! - [`reconcile`] and [`schedule`]: staying current, coming back after a disconnect, leaving.
//! - [`workspace`]: the saved pane layout.
//! - [`layout`], [`render`] and [`json`]: what is shown, with [`screen_laws`], [`report_laws`] and
//!   [`wording_laws`].
//! - [`startup`], [`overnight`] and [`framing`]: starting, the liveness of persisted runs, and
//!   newline-delimited frames.
//! - [`text`]: text building blocks.

pub mod backend;
pub mod backend_laws;
pub mod command_laws;
pub mod commands;
pub mod control_laws;
pub mod framing;
pub mod idempotency;
pub mod interaction;
pub mod interaction_laws;
pub mod json;
pub mod key_laws;
pub mod keys;
pub mod layout;
pub mod overnight;
pub mod pane_laws;
pub mod protocol;
pub mod reconcile;
pub mod render;
pub mod report_laws;
pub mod schedule;
pub mod screen_laws;
pub mod selection_laws;
pub mod startup;
pub mod state;
pub mod state_laws;
pub mod stream_laws;
pub mod text;
pub mod wording_laws;
pub mod workspace;
