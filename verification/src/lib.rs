//! Core logic of a command supervisor in the style of `watch` combined with
//! `tee -f`: a supervisor runs an external command on a cadence, every byte of
//! the command's output is appended to a single log, and a tail streamer
//! mirrors the log to the console as it grows.
//!
//! This crate holds the verified part: the supervisor state machine that
//! decides continue-versus-stop per iteration, the classification of a wait
//! outcome into a command result, the append-only byte store with its tail
//! cursor (no byte is missed, none is repeated, pre-existing content is never
//! replayed), the exact text of every status and failure annotation, and the
//! validation of the run configuration. Process spawning, file handles,
//! threads and signal delivery are left to the thin unverified shell around
//! the library.

pub mod config;
pub mod outcome;
pub mod render;
pub mod sink;
pub mod supervisor;
