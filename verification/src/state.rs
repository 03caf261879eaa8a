//! Shared run/pause flags of the daemon.
//!
//! `AppState` is read by the rotation scheduler and mutated only by the
//! command dispatcher. `is_paused` suppresses the activity switch at the end
//! of a dwell period; `is_running` keeps the top-level loop alive.

use vstd::prelude::*;

verus! {

/// Shared application flags: whether rotation is paused and whether the
/// process should keep running.
#[derive(Clone, Copy, Debug, PartialEq, Eq, Structural)]
pub struct AppState {
    pub is_paused: bool,
    pub is_running: bool,
}

impl AppState {
    /// The daemon starts unpaused and running.
    pub fn new() -> (s: AppState)
        ensures
            !s.is_paused,
            s.is_running,
    {
        AppState { is_paused: false, is_running: true }
    }

    /// Read accessor for the pause flag, for external status display.
    pub fn paused(&self) -> (r: bool)
        ensures
            r == self.is_paused,
    {
        self.is_paused
    }

    /// Read accessor for the running flag, watched by the top-level loop to
    /// decide when the process shuts down.
    pub fn running(&self) -> (r: bool)
        ensures
            r == self.is_running,
    {
        self.is_running
    }
}

} // verus!
