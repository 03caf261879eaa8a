//! Command dispatch.
//!
//! External collaborators (tray menu, hotkeys, the file watcher) push
//! commands into one unbounded FIFO queue with a single consumer. The
//! consumer loop runs in the unverified shell, because several commands need
//! transport work or sleeps mid-command; each command's decision — what
//! changes in the shared state and what outside work the shell must do next —
//! is the verified `dispatch` step here, applied strictly in arrival order.

use vstd::prelude::*;

verus! {

use crate::session::SessionManager;
use crate::state::AppState;

/// Milliseconds a reload waits before re-reading the file, absorbing the
/// bursts of duplicate change notifications a single edit produces.
pub const RELOAD_DEBOUNCE_MILLIS: u64 = 500;

/// The closed set of control commands external collaborators can issue.
#[derive(Clone, Copy, Debug, PartialEq, Eq, Structural)]
pub enum Command {
    /// Toggle the pause flag.
    Pause,
    /// Clear the pause flag unconditionally.
    Resume,
    /// Switch to the next activity at once, reconnecting first if needed.
    NextActivity,
    /// Re-read the configuration file and apply its activity list.
    ReloadConfig,
    /// Report pause, connection and running state.
    ShowStatus,
    /// Show or hide the console window (presentation collaborator's job).
    ToggleConsole,
    /// Open the configuration file (presentation collaborator's job).
    OpenConfig,
    /// Stop the dispatcher and let the process shut down.
    Exit,
}

/// What the shell must do after one dispatch step.
#[derive(Clone, Copy, Debug, PartialEq, Eq, Structural)]
pub enum DispatchAction {
    /// Nothing: the step was applied entirely in shared state.
    Continue,
    /// Send the (already advanced) current activity and apply the outcome.
    Publish,
    /// Run the reconnect protocol, then `advance_if_alive`, then publish.
    Reconnect,
    /// Debounce, re-read the configuration, `apply_reload`, then publish.
    Reload,
    /// Render and report the status summary.
    Status,
    /// Delegate to the presentation collaborator: toggle the console.
    ConsoleToggle,
    /// Delegate to the presentation collaborator: open the config file.
    ConfigOpen,
    /// Leave the dispatcher loop without taking further commands.
    Stop,
}

/// The shared flags after one command: pause toggles on `Pause`, clears on
/// `Resume`, the running flag clears on `Exit`, and no other command touches
/// them.
pub open spec fn app_state_after(state: AppState, cmd: Command) -> AppState {
    match cmd {
        Command::Pause => AppState { is_paused: !state.is_paused, ..state },
        Command::Resume => AppState { is_paused: false, ..state },
        Command::Exit => AppState { is_running: false, ..state },
        _ => state,
    }
}

/// Only `Exit` ends the dispatcher loop.
pub open spec fn stops_dispatch(cmd: Command) -> bool {
    cmd is Exit
}

/// One dispatch step: applies the command's effect on the shared flags and
/// the session, and tells the shell what outside work (transport, sleeps,
/// presentation) the command still needs. `NextActivity` advances and asks
/// for a publish when the session is alive; when it is down it asks for the
/// reconnect protocol first and touches nothing yet.
pub fn dispatch(state: &mut AppState, session: &mut SessionManager, cmd: Command) -> (act:
    DispatchAction)
    requires
        old(session).wf(),
    ensures
        *final(state) == app_state_after(*old(state), cmd),
        (act is Stop) == stops_dispatch(cmd),
        cmd is Pause ==> act is Continue && *final(session) == *old(session),
        cmd is Resume ==> act is Continue && *final(session) == *old(session),
        cmd is NextActivity && old(session).connected ==> act is Publish && *final(session)
            == old(session).advance_spec(),
        cmd is NextActivity && !old(session).connected ==> act is Reconnect && *final(session)
            == *old(session),
        cmd is ReloadConfig ==> act is Reload && *final(session) == *old(session),
        cmd is ShowStatus ==> act is Status && *final(session) == *old(session),
        cmd is ToggleConsole ==> act is ConsoleToggle && *final(session) == *old(session),
        cmd is OpenConfig ==> act is ConfigOpen && *final(session) == *old(session),
        cmd is Exit ==> *final(session) == *old(session),
        final(session).wf(),
{
    match cmd {
        Command::Pause => {
            state.is_paused = !state.is_paused;
            DispatchAction::Continue
        },
        Command::Resume => {
            state.is_paused = false;
            DispatchAction::Continue
        },
        Command::NextActivity => {
            if session.is_alive() {
                session.advance();
                DispatchAction::Publish
            } else {
                DispatchAction::Reconnect
            }
        },
        Command::ReloadConfig => DispatchAction::Reload,
        Command::ShowStatus => DispatchAction::Status,
        Command::ToggleConsole => DispatchAction::ConsoleToggle,
        Command::OpenConfig => DispatchAction::ConfigOpen,
        Command::Exit => {
            state.is_running = false;
            DispatchAction::Stop
        },
    }
}

/// The rest of a `NextActivity` command after the reconnect protocol ran:
/// only when the reconnect brought the session up does rotation advance (the
/// caller then publishes the new current activity); a session still down is
/// reported as a failure and skipped.
pub fn advance_if_alive(session: &mut SessionManager) -> (advanced: bool)
    requires
        old(session).wf(),
    ensures
        old(session).connected ==> advanced && *final(session) == old(session).advance_spec(),
        !old(session).connected ==> !advanced && *final(session) == *old(session),
        final(session).wf(),
{
    if session.is_alive() {
        session.advance();
        true
    } else {
        false
    }
}

/// How many of the queued commands the dispatcher consumes: everything up to
/// and including the first `Exit`, or the whole queue if none stops it.
pub open spec fn consumed_count(cmds: Seq<Command>) -> int
    decreases cmds.len(),
{
    if cmds.len() == 0 {
        0
    } else if stops_dispatch(cmds[0]) {
        1
    } else {
        1 + consumed_count(cmds.drop_first())
    }
}

/// The shared flags after the dispatcher works through a queue in arrival
/// order, stopping at the first `Exit`.
pub open spec fn queue_state(state: AppState, cmds: Seq<Command>) -> AppState
    decreases cmds.len(),
{
    if cmds.len() == 0 {
        state
    } else if stops_dispatch(cmds[0]) {
        app_state_after(state, cmds[0])
    } else {
        queue_state(app_state_after(state, cmds[0]), cmds.drop_first())
    }
}

/// An `Exit` command clears the running flag and terminates the dispatcher
/// loop without processing any further queued commands: the queue's outcome
/// equals the outcome of its prefix ending at the first `Exit`, exactly that
/// many commands are consumed, and the running flag ends up cleared.
pub proof fn lemma_exit_halts_dispatch(state: AppState, cmds: Seq<Command>, i: int)
    requires
        0 <= i < cmds.len(),
        cmds[i] is Exit,
        forall|j: int| 0 <= j < i ==> !(cmds[j] is Exit),
    ensures
        consumed_count(cmds) == i + 1,
        queue_state(state, cmds) == queue_state(state, cmds.take(i + 1)),
        !queue_state(state, cmds).is_running,
    decreases i,
{
    if i == 0 {
        assert(cmds.take(1)[0] == cmds[0]);
    } else {
        let rest = cmds.drop_first();
        assert(forall|j: int| 0 <= j < i - 1 ==> !(rest[j] is Exit));
        assert(rest[i - 1] is Exit);
        lemma_exit_halts_dispatch(app_state_after(state, cmds[0]), rest, i - 1);
        assert(cmds.take(i + 1)[0] == cmds[0]);
        assert(cmds.take(i + 1).drop_first() =~= rest.take(i));
    }
}

} // verus!
