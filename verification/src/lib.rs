//! Decision core of a per-vault mount supervisor.
//!
//! A vault is a persisted record naming an encrypted data directory and the
//! mount point where its decrypted view is exposed. For each vault a
//! supervisor spawns, health-checks and terminates one mounting process and
//! keeps the record's `locked` flag in step with what it asked for.
//!
//! Nothing in this crate blocks, sleeps or talks to a store. Every operation
//! is a conversation: the supervisor hands out an [`Action`] naming the outside
//! work it wants done, and is told the outcome as an [`Event`]. What it decides
//! at each step is a function of its state and that event, and that function
//! is what the contracts here pin down.
//!
//! - [`handler`] holds the executable supervisor, [`VaultHandler`].
//! - [`protocol`] holds the actions, events and stages it speaks in.
//! - [`model`] holds the state machine it is proved to follow.
//! - [`laws`] and [`runs`] state what follows for every supervisor: the
//!   first step by step, the second operation by operation.
//! - [`status`], [`listing`], [`command`], [`naming`], [`numeral`] and
//!   [`record`] hold what a driver needs to do its part: the probe of the
//!   process table, the scan of a process listing, the command lines, the
//!   log file names and the store's encoding of a record.

pub mod command;
pub mod error;
pub mod handler;
pub mod laws;
pub mod listing;
pub mod model;
pub mod naming;
pub mod numeral;
pub mod protocol;
pub mod record;
pub mod runs;
pub mod status;

pub use error::VaultHandlerError;
pub use handler::VaultHandler;
pub use protocol::{Action, Event, Platform};
