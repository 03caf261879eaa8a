//! Presence session lifecycle and rotation engine.
//!
//! A background daemon keeps a presence session open against a desktop chat
//! client over a local inter-process channel and cycles through a configured
//! list of activities, each shown for its own dwell duration. This library
//! holds the verified core: the connection/reconnection state machine, the
//! activity-rotation scheduler's decisions, the command dispatcher, and the
//! configuration data contract. The unverified shell around it performs the
//! actual transport calls, sleeps, and file access, and feeds their outcomes
//! back into these functions.

pub mod command;
pub mod config;
pub mod scheduler;
pub mod session;
pub mod state;
pub mod text;
