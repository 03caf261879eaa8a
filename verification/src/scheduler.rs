//! Rotation scheduler decisions.
//!
//! The scheduler loop runs in the unverified shell, because each iteration
//! sleeps and may call the transport: it snapshots the session under the
//! lock, releases the lock, sleeps for the dwell duration (or runs the
//! reconnect protocol and sleeps the cooldown when the session is down), and
//! then applies the end-of-dwell step. The snapshot and that step — all the
//! decisions of one iteration — are verified here.

use vstd::prelude::*;

verus! {

use crate::command::app_state_after;
use crate::command::Command;
use crate::session::SessionManager;
use crate::state::AppState;

/// Seconds the scheduler waits after a failed reconnect attempt before it
/// restarts its loop.
pub const RECONNECT_COOLDOWN_SECS: u64 = 10;

/// What one scheduler iteration reads under the lock before sleeping: the
/// current activity's dwell duration, the pause flag, and whether the
/// connection is up.
pub struct TickSnapshot {
    pub dwell_seconds: u64,
    pub paused: bool,
    pub alive: bool,
}

/// The snapshot taken at the top of one scheduler iteration. The lock is
/// released right after: it is never held across a sleep.
pub fn snapshot_tick(session: &SessionManager, state: &AppState) -> (t: TickSnapshot)
    requires
        session.wf(),
    ensures
        t.dwell_seconds == session.current_duration_spec(),
        t.paused == state.is_paused,
        t.alive == session.connected,
{
    TickSnapshot {
        dwell_seconds: session.current_duration(),
        paused: state.is_paused,
        alive: session.is_alive(),
    }
}

/// The session after the end-of-dwell step of one tick: rotation advances
/// one activity when the tick was not paused and the connection is still up,
/// and stays put otherwise.
pub open spec fn tick_spec(s: SessionManager, paused: bool) -> SessionManager {
    if !paused && s.connected {
        s.advance_spec()
    } else {
        s
    }
}

/// The end-of-dwell step of one scheduler tick, run after the dwell sleep
/// with the pause flag as it was snapshotted before the sleep. When the tick
/// was not paused and the connection is still up, rotation advances and the
/// caller must publish the new current activity (handing the outcome to
/// `apply_publish_result`); otherwise nothing changes and nothing is sent.
pub fn rotate_after_dwell(session: &mut SessionManager, paused: bool) -> (publish: bool)
    requires
        old(session).wf(),
    ensures
        *final(session) == tick_spec(*old(session), paused),
        publish == (!paused && old(session).connected),
        final(session).wf(),
{
    if !paused && session.is_alive() {
        session.advance();
        true
    } else {
        false
    }
}

/// A pause command followed by one full dwell-duration tick leaves the
/// rotation position unchanged: the tick still sleeps, but the activity
/// switch at its end is suppressed.
pub proof fn lemma_pause_then_tick(session: SessionManager, state: AppState)
    requires
        session.wf(),
        !state.is_paused,
    ensures
        tick_spec(session, app_state_after(state, Command::Pause).is_paused) == session,
{
}

/// A resume command followed by one tick, with the connection up, advances
/// the rotation position exactly one step.
pub proof fn lemma_resume_then_tick(session: SessionManager, state: AppState)
    requires
        session.wf(),
        session.connected,
    ensures
        tick_spec(session, app_state_after(state, Command::Resume).is_paused)
            == session.advance_spec(),
{
}

} // verus!
