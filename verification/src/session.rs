//! Presence session state machine.
//!
//! `SessionManager` owns the model of the connection to the remote presence
//! endpoint: whether it is up, the loaded activity list, the index of the
//! activity currently shown, and when a connection was last attempted. The
//! unverified shell performs the actual transport calls (open the channel,
//! send an activity, clear it, close) and feeds each outcome back through the
//! `apply_*` functions here, so every state transition is verified whatever
//! the transport did.

use vstd::prelude::*;

verus! {

use vstd::arithmetic::div_mod::lemma_mod_self_0;
use vstd::arithmetic::div_mod::lemma_small_mod;
use vstd::string::StringExecFns;
use crate::text::decimal_digits;
use crate::text::decimal_string;
use crate::config::ActivityConfig;
use crate::config::opt_buttons_eq;
use crate::config::ButtonConfig;
use crate::config::duplicate_opt_buttons;
use crate::config::duplicate_opt_string;

/// Minimum spacing in seconds between two real connection attempts: a
/// reconnect requested sooner is refused without touching the connection.
pub const RECONNECT_MIN_SPACING_SECS: u64 = 5;

/// Dwell duration in seconds reported while the activity list is empty.
pub const EMPTY_LIST_DURATION_SECS: u64 = 30;

/// The images and captions attached to one outgoing presence update. A small
/// image is only sent when a large one is set, and a small caption only when
/// the small image is set, mirroring what the remote endpoint displays.
pub struct PresenceAssets {
    pub large_image: String,
    pub large_text: Option<String>,
    pub small_image: Option<String>,
    pub small_text: Option<String>,
}

/// One outgoing presence update, built from the current activity and stamped
/// with a fresh start timestamp, so the elapsed time shown on the remote side
/// resets on every publish.
pub struct PresencePayload {
    pub details: String,
    pub state: String,
    pub start_timestamp: u64,
    pub assets: Option<PresenceAssets>,
    pub buttons: Option<Vec<ButtonConfig>>,
}

/// The payload carries exactly the texts, images and buttons of the activity,
/// stamped with the given start time. Captions without their image are left
/// out: no assets at all without a large image, and no small caption without
/// a small image.
pub open spec fn payload_matches(p: PresencePayload, a: ActivityConfig, now: u64) -> bool {
    &&& p.details == a.details
    &&& p.state == a.state
    &&& p.start_timestamp == now
    &&& match a.large_image {
        Option::Some(li) => (p.assets matches Some(assets) && {
            &&& assets.large_image == li
            &&& assets.large_text == a.large_text
            &&& assets.small_image == a.small_image
            &&& assets.small_text == (if a.small_image is Some {
                a.small_text
            } else {
                Option::<String>::None
            })
        }),
        Option::None => p.assets is None,
    }
    &&& opt_buttons_eq(p.buttons, a.buttons)
}

/// The model of the presence session: connection flag, activity rotation
/// position, and the time of the last connection attempt (seconds since the
/// Unix epoch; zero means never).
pub struct SessionManager {
    pub application_id: String,
    pub activities: Vec<ActivityConfig>,
    pub current_index: usize,
    pub connected: bool,
    pub last_connect_attempt: u64,
}

impl SessionManager {
    /// The rotation position always points into the list; with an empty list
    /// it rests at zero.
    pub open spec fn wf(self) -> bool {
        if self.activities@.len() == 0 {
            self.current_index == 0
        } else {
            self.current_index < self.activities@.len()
        }
    }

    /// A reconnect at `now` may proceed: either the clock went backwards, or
    /// the minimum spacing since the last attempt has elapsed.
    pub open spec fn reconnect_allowed_spec(self, now: u64) -> bool {
        ||| now < self.last_connect_attempt
        ||| now - self.last_connect_attempt >= RECONNECT_MIN_SPACING_SECS
    }

    /// Rotation advances one step: the next index, wrapping to the front past
    /// the end; with an empty list nothing moves.
    pub open spec fn advance_spec(self) -> SessionManager {
        if self.activities@.len() == 0 {
            self
        } else {
            SessionManager {
                current_index: ((self.current_index + 1) as int % self.activities@.len() as int)
                    as usize,
                ..self
            }
        }
    }

    /// A reconnect gate at `now`: when allowed, the attempt time is recorded;
    /// when refused, nothing changes.
    pub open spec fn begin_reconnect_spec(self, now: u64) -> SessionManager {
        if self.reconnect_allowed_spec(now) {
            SessionManager { last_connect_attempt: now, ..self }
        } else {
            self
        }
    }

    /// The dwell duration of the current activity, or the fixed fallback
    /// while the list is empty.
    pub open spec fn current_duration_spec(self) -> u64 {
        if self.activities@.len() == 0 {
            EMPTY_LIST_DURATION_SECS
        } else {
            self.activities@[self.current_index as int].duration_seconds
        }
    }

    /// A reload replaces the activity list wholesale; the rotation position
    /// is kept when it still points into the new list and resets to the
    /// front otherwise.
    pub open spec fn reload_spec(self, new_activities: Vec<ActivityConfig>) -> SessionManager {
        SessionManager {
            activities: new_activities,
            current_index: if self.current_index < new_activities@.len() {
                self.current_index
            } else {
                0
            },
            ..self
        }
    }

    /// A new session starts disconnected at the front of the list, with no
    /// connection attempt on record.
    pub fn new(application_id: String, activities: Vec<ActivityConfig>) -> (s: SessionManager)
        ensures
            s.application_id == application_id,
            s.activities == activities,
            s.current_index == 0,
            !s.connected,
            s.last_connect_attempt == 0,
            s.wf(),
    {
        SessionManager {
            application_id,
            activities,
            current_index: 0,
            connected: false,
            last_connect_attempt: 0,
        }
    }

    /// The session is alive: the connection to the remote endpoint is up.
    pub fn is_alive(&self) -> (r: bool)
        ensures
            r == self.connected,
    {
        self.connected
    }

    /// Read accessor for the connection flag, for external status display.
    pub fn is_connected(&self) -> (r: bool)
        ensures
            r == self.connected,
    {
        self.is_alive()
    }

    /// Every connection attempt is put on record before the transport call,
    /// so the next reconnect request is measured against it.
    pub fn record_connect_attempt(&mut self, now: u64)
        ensures
            *final(self) == (SessionManager { last_connect_attempt: now, ..*old(self) }),
    {
        self.last_connect_attempt = now;
    }

    /// The outcome of a connection attempt: on success the session is marked
    /// connected; a failure leaves the state as it was (still disconnected
    /// when the attempt came from a reconnect cycle).
    pub fn apply_connect_result(&mut self, ok: bool)
        ensures
            ok ==> *final(self) == (SessionManager { connected: true, ..*old(self) }),
            !ok ==> *final(self) == *old(self),
    {
        if ok {
            self.connected = true;
        }
    }

    /// The reconnect gate: refuses a second real connection attempt within
    /// the minimum spacing, and otherwise records the attempt time. The
    /// caller performs the transport call only when this returns true, and
    /// then hands the outcome to `apply_connect_result`.
    pub fn begin_reconnect(&mut self, now: u64) -> (proceed: bool)
        ensures
            proceed == old(self).reconnect_allowed_spec(now),
            *final(self) == old(self).begin_reconnect_spec(now),
    {
        if now >= self.last_connect_attempt && now - self.last_connect_attempt
            < RECONNECT_MIN_SPACING_SECS {
            false
        } else {
            self.record_connect_attempt(now);
            true
        }
    }

    /// The outcome of sending a presence update: success confirms the
    /// connection; a transport failure downgrades the session to
    /// disconnected, so the next scheduler iteration repairs it.
    pub fn apply_publish_result(&mut self, ok: bool)
        ensures
            ok ==> *final(self) == (SessionManager { connected: true, ..*old(self) }),
            !ok ==> *final(self) == (SessionManager { connected: false, ..*old(self) }),
    {
        self.connected = ok;
    }

    /// Clearing the shown activity or closing the channel is best-effort on
    /// the transport side; the model simply drops to disconnected.
    pub fn mark_disconnected(&mut self)
        ensures
            *final(self) == (SessionManager { connected: false, ..*old(self) }),
    {
        self.connected = false;
    }

    /// Rotation advances to the next activity, wrapping past the end; with an
    /// empty list nothing moves.
    pub fn advance(&mut self)
        requires
            old(self).wf(),
        ensures
            *final(self) == old(self).advance_spec(),
            final(self).wf(),
    {
        if self.activities.len() > 0 {
            self.current_index = (self.current_index + 1) % self.activities.len();
        }
    }

    /// The dwell duration of the current activity, or the fixed fallback
    /// while the list is empty.
    pub fn current_duration(&self) -> (d: u64)
        requires
            self.wf(),
        ensures
            d == self.current_duration_spec(),
    {
        if self.activities.len() == 0 {
            EMPTY_LIST_DURATION_SECS
        } else {
            self.activities[self.current_index].duration_seconds
        }
    }

    /// Replaces the activity list wholesale; the rotation position is kept
    /// when it still points into the new list and resets to the front when
    /// the new list is too short. Does not republish: the caller sends the
    /// current activity afterwards.
    pub fn reload(&mut self, new_activities: Vec<ActivityConfig>)
        ensures
            *final(self) == old(self).reload_spec(new_activities),
            new_activities@.len() <= old(self).current_index ==> final(self).current_index == 0,
            final(self).wf(),
    {
        let keep = self.current_index < new_activities.len();
        self.activities = new_activities;
        if !keep {
            self.current_index = 0;
        }
    }

    /// Applies the result of re-reading the configuration file: a loaded list
    /// replaces the activities as `reload` does, while a failed load (I/O or
    /// parse error, reported by the caller) leaves the previously loaded
    /// activities and the rotation position untouched.
    pub fn apply_reload(&mut self, loaded: Option<Vec<ActivityConfig>>) -> (applied: bool)
        ensures
            loaded matches Some(new_activities) ==> *final(self) == old(self).reload_spec(
                new_activities,
            ) && applied,
            loaded is None ==> *final(self) == *old(self) && !applied,
            old(self).wf() ==> final(self).wf(),
    {
        match loaded {
            Option::Some(new_activities) => {
                self.reload(new_activities);
                true
            },
            Option::None => false,
        }
    }

    /// Builds the presence update for the current activity, stamped with the
    /// given start time; `None` while the activity list is empty (nothing to
    /// send). The caller sends it and hands the outcome to
    /// `apply_publish_result`.
    pub fn publish_payload(&self, now: u64) -> (r: Option<PresencePayload>)
        requires
            self.wf(),
        ensures
            (r is Some) <==> self.activities@.len() > 0,
            r matches Some(p) ==> payload_matches(
                p,
                self.activities@[self.current_index as int],
                now,
            ),
    {
        if self.activities.len() == 0 {
            return None;
        }
        let a = &self.activities[self.current_index];
        let assets: Option<PresenceAssets> = match &a.large_image {
            Option::Some(li) => Option::Some(
                PresenceAssets {
                    large_image: li.clone(),
                    large_text: duplicate_opt_string(&a.large_text),
                    small_image: duplicate_opt_string(&a.small_image),
                    small_text: if a.small_image.is_some() {
                        duplicate_opt_string(&a.small_text)
                    } else {
                        Option::None
                    },
                },
            ),
            Option::None => Option::None,
        };
        Some(
            PresencePayload {
                details: a.details.clone(),
                state: a.state.clone(),
                start_timestamp: now,
                assets,
                buttons: duplicate_opt_buttons(&a.buttons),
            },
        )
    }

    /// The status line shown on request: the current activity's name, its
    /// one-based position out of the list's length, and its details — or a
    /// fixed notice while no activities are configured.
    pub open spec fn status_summary_spec(self) -> Seq<char> {
        if self.activities@.len() == 0 {
            "❌ Sin actividades configuradas"@
        } else {
            "📊 Actividad actual: "@ + self.activities@[self.current_index as int].name@ + " ("@
                + decimal_digits((self.current_index + 1) as nat) + "/"@ + decimal_digits(
                self.activities@.len() as nat,
            ) + ") - "@ + self.activities@[self.current_index as int].details@
        }
    }

    /// Renders the status line for external display.
    pub fn status_summary(&self) -> (r: String)
        requires
            self.wf(),
        ensures
            r@ == self.status_summary_spec(),
    {
        if self.activities.len() == 0 {
            return String::from_str("❌ Sin actividades configuradas");
        }
        let a = &self.activities[self.current_index];
        let mut r = String::from_str("📊 Actividad actual: ");
        r.append(a.name.as_str());
        r.append(" (");
        let pos = decimal_string((self.current_index + 1) as u64);
        r.append(pos.as_str());
        r.append("/");
        let total = decimal_string(self.activities.len() as u64);
        r.append(total.as_str());
        r.append(") - ");
        r.append(a.details.as_str());
        proof {
            assert(((self.current_index + 1) as u64) as nat == (self.current_index + 1) as nat);
            assert((self.activities.len() as u64) as nat == self.activities@.len());
            assert(r@ =~= self.status_summary_spec());
        }
        r
    }
}

/// The session after `n` rotation steps.
pub open spec fn advance_n_spec(s: SessionManager, n: nat) -> SessionManager
    decreases n,
{
    if n == 0 {
        s
    } else {
        advance_n_spec(s, (n - 1) as nat).advance_spec()
    }
}

/// One rotation step from a position inside the list moves to the next
/// position, wrapping to the front from the last one.
proof fn lemma_advance_unfold(s: SessionManager)
    requires
        s.wf(),
        s.activities@.len() > 0,
    ensures
        s.advance_spec() == (SessionManager {
            current_index: if s.current_index + 1 == s.activities@.len() {
                0
            } else {
                (s.current_index + 1) as usize
            },
            ..s
        }),
{
    let len = s.activities@.len() as int;
    if s.current_index + 1 == len {
        lemma_mod_self_0(len);
    } else {
        lemma_small_mod((s.current_index + 1) as nat, len as nat);
    }
}

/// After `n` rotation steps, `n` at most the list's length, the position has
/// moved `n` places forward, wrapping past the end at most once; nothing else
/// changes.
proof fn lemma_advance_n_partial(s: SessionManager, n: nat)
    requires
        s.wf(),
        s.activities@.len() > 0,
        n <= s.activities@.len(),
    ensures
        advance_n_spec(s, n) == (SessionManager {
            current_index: advance_n_spec(s, n).current_index,
            ..s
        }),
        s.current_index + n < s.activities@.len() ==> advance_n_spec(s, n).current_index
            == s.current_index + n,
        s.current_index + n >= s.activities@.len() ==> advance_n_spec(s, n).current_index
            == s.current_index + n - s.activities@.len(),
    decreases n,
{
    assert(s.activities.len() == s.activities@.len());
    if n == 0 {
        assert(advance_n_spec(s, 0) == s);
    } else {
        lemma_advance_n_partial(s, (n - 1) as nat);
        let prev = advance_n_spec(s, (n - 1) as nat);
        assert(prev.activities == s.activities);
        assert(prev.wf());
        lemma_advance_unfold(prev);
        assert(advance_n_spec(s, n) == prev.advance_spec());
    }
}

/// Rotation is a cycle: advancing as many times as the list has activities
/// returns the session to exactly the state it started in.
pub proof fn lemma_rotation_cycle(s: SessionManager)
    requires
        s.wf(),
        s.activities@.len() > 0,
    ensures
        advance_n_spec(s, s.activities@.len()) == s,
{
    lemma_advance_n_partial(s, s.activities@.len());
    assert(advance_n_spec(s, s.activities@.len()).current_index == s.current_index);
}

/// The reconnect gate rate-limits connection attempts: once an attempt went
/// through at `t1`, a second request within the minimum spacing is refused
/// and leaves the session untouched, so at most one real connection attempt
/// is made in any such window.
pub proof fn lemma_reconnect_rate_limited(s: SessionManager, t1: u64, t2: u64)
    requires
        s.reconnect_allowed_spec(t1),
        t1 <= t2,
        t2 - t1 < RECONNECT_MIN_SPACING_SECS,
    ensures
        !s.begin_reconnect_spec(t1).reconnect_allowed_spec(t2),
        s.begin_reconnect_spec(t1).begin_reconnect_spec(t2) == s.begin_reconnect_spec(t1),
{
}

} // verus!
