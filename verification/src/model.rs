//! What the supervisor is, as a value, and what each operation makes of it.

use crate::lifecycle::ExtHostLifecycleState;
use crate::session::{StartRefusal, StartStep};
use vstd::prelude::*;

verus! {

/// Nanoseconds in a second.
pub const NANOS_PER_SECOND: u64 = 1_000_000_000;

/// A crash older than this no longer counts towards a crash loop.
pub const CRASH_WINDOW_NANOS: u64 = 300_000_000_000;

/// More crashes than this within the window make a crash loop.
pub const CRASH_LOOP_THRESHOLD: usize = 3;

/// A running host, as the supervisor knows it.
#[verifier::ext_equal]
pub struct SessionView {
    pub port: u16,
    pub session_id: Seq<char>,
    pub started_at: u64,
}

/// One crash of a host.
#[verifier::ext_equal]
pub struct CrashView {
    pub timestamp: u64,
    pub session_id: Seq<char>,
}

/// Everything that the supervisor remembers.
#[verifier::ext_equal]
pub struct SupervisorView {
    pub session: Option<SessionView>,
    pub total_crashes: nat,
    pub restart_count: nat,
    pub lifecycle_state: ExtHostLifecycleState,
    pub crash_history: Seq<CrashView>,
    pub crash_loop_detected: bool,
    pub degraded_at: Option<u64>,
}

/// The nanoseconds from `since` to `now`; none if `now` is the earlier of the two.
pub open spec fn nanos_between(since: u64, now: u64) -> u64 {
    if now >= since {
        (now - since) as u64
    } else {
        0
    }
}

/// What a status report says.
#[verifier::ext_equal]
pub struct ReportView {
    pub running: bool,
    pub port: Option<u16>,
    pub session_id: Option<Seq<char>>,
    pub uptime_secs: Option<u64>,
    pub restart_count: nat,
    pub total_crashes: nat,
    pub lifecycle_state: ExtHostLifecycleState,
    pub crash_loop_detected: bool,
}

impl SessionView {
    /// The whole seconds that the host has run at the time `now`.
    pub open spec fn uptime_secs(self, now: u64) -> u64 {
        nanos_between(self.started_at, now) / NANOS_PER_SECOND
    }
}

impl CrashView {
    /// Whether the crash counts towards a crash loop at the time `now`.
    pub open spec fn is_recent(self, now: u64) -> bool {
        nanos_between(self.timestamp, now) < CRASH_WINDOW_NANOS
    }
}

/// The crashes of `history` that count at the time `now`, in their order.
pub open spec fn recent_crashes(history: Seq<CrashView>, now: u64) -> Seq<CrashView> {
    history.filter(|crash: CrashView| crash.is_recent(now))
}

impl SupervisorView {
    /// A supervisor that has not been asked for anything.
    pub open spec fn initial() -> Self {
        SupervisorView {
            session: None,
            total_crashes: 0,
            restart_count: 0,
            lifecycle_state: ExtHostLifecycleState::Idle,
            crash_history: Seq::empty(),
            crash_loop_detected: false,
            degraded_at: None,
        }
    }

    /// A crash loop is on record exactly if the time is at which it was found.
    pub open spec fn loop_is_dated(self) -> bool {
        self.crash_loop_detected <==> self.degraded_at is Some
    }

    /// A crash loop is on record with its time, has no host beside it, and is on record exactly
    /// while more crashes are remembered than the threshold allows; never more than one above it
    /// are.
    pub open spec fn wf(self) -> bool {
        &&& self.loop_is_dated()
        &&& self.crash_loop_detected ==> self.session is None
        &&& self.crash_loop_detected <==> self.crash_history.len() > CRASH_LOOP_THRESHOLD
        &&& self.crash_history.len() <= CRASH_LOOP_THRESHOLD + 1
        &&& self.crash_history.len() <= self.total_crashes
    }

    /// Only the lifecycle state is replaced.
    pub open spec fn in_state(self, state: ExtHostLifecycleState) -> Self {
        SupervisorView { lifecycle_state: state, ..self }
    }

    /// Whether `session_id` names the host that runs now.
    pub open spec fn is_current(self, session_id: Seq<char>) -> bool {
        session_id.len() > 0 && self.session is Some && self.session->0.session_id == session_id
    }

    /// What an event does that reports `state` for the host `session_id`.
    pub open spec fn after_event(self, state: ExtHostLifecycleState, session_id: Seq<char>) -> Self {
        if self.is_current(session_id) {
            self.in_state(state)
        } else {
            self
        }
    }

    /// The crash loop and the crashes behind it are forgotten.
    pub open spec fn without_crash_loop(self) -> Self {
        SupervisorView {
            crash_loop_detected: false,
            degraded_at: None,
            crash_history: Seq::empty(),
            ..self
        }
    }

    /// The crashes that count once the running host has crashed at the time `now`.
    pub open spec fn crashes_with_this_one(self, now: u64) -> Seq<CrashView> {
        recent_crashes(
            self.crash_history.push(
                CrashView { timestamp: now, session_id: self.session->0.session_id },
            ),
            now,
        )
    }

    /// The running host was found to have exited at the time `now`.
    pub open spec fn crashed(self, now: u64) -> Self {
        let crashes = self.crashes_with_this_one(now);
        let looping = crashes.len() > CRASH_LOOP_THRESHOLD;
        SupervisorView {
            session: None,
            total_crashes: self.total_crashes + 1,
            crash_history: crashes,
            lifecycle_state: if looping {
                ExtHostLifecycleState::Degraded
            } else {
                ExtHostLifecycleState::HostExited
            },
            crash_loop_detected: self.crash_loop_detected || looping,
            degraded_at: if looping {
                Some(now)
            } else {
                self.degraded_at
            },
            ..self
        }
    }

    /// The process of the running host, if there is one, was looked at.
    pub open spec fn after_child_check(self, now: u64, child_exited: bool) -> Self {
        if self.session is Some && child_exited {
            self.crashed(now)
        } else {
            self
        }
    }

    /// The answer to a request for a started host. While a crash loop is on record it is a refusal,
    /// at any time.
    pub open spec fn start_step(self, now: u64, child_exited: bool) -> StartStep {
        if self.crash_loop_detected {
            StartStep::Refused(StartRefusal::Degraded)
        } else if self.session is Some && !child_exited {
            StartStep::Running(self.session->0.port)
        } else if self.session is Some && self.crashed(now).crash_loop_detected {
            StartStep::Refused(StartRefusal::CrashLoop)
        } else {
            StartStep::Spawn
        }
    }

    /// The supervisor once it has answered a request for a started host.
    pub open spec fn after_start_request(self, now: u64, child_exited: bool) -> Self {
        match self.start_step(now, child_exited) {
            StartStep::Refused(StartRefusal::Degraded) => self,
            StartStep::Running(_) => self,
            StartStep::Refused(StartRefusal::CrashLoop) => self.crashed(now),
            StartStep::Spawn => self.after_child_check(now, child_exited).in_state(
                ExtHostLifecycleState::ServerStarting,
            ),
        }
    }

    /// The host `session` is the one that runs now.
    pub open spec fn with_session(self, session: SessionView) -> Self {
        SupervisorView { session: Some(session), ..self }
    }

    /// A spawned host listens.
    pub open spec fn started(self, session: SessionView) -> Self {
        SupervisorView {
            restart_count: self.restart_count + 1,
            lifecycle_state: ExtHostLifecycleState::ServerListening,
            ..self.with_session(session)
        }
    }

    /// There is no host, by request.
    pub open spec fn stopped(self) -> Self {
        SupervisorView { session: None, lifecycle_state: ExtHostLifecycleState::Idle, ..self }
    }

    /// A restart was asked for, and the crash loop forgotten.
    pub open spec fn restart_begun(self) -> Self {
        self.without_crash_loop().in_state(ExtHostLifecycleState::Bootstrapping)
    }

    /// The restart was asked for, the host taken away, and a new one is being spawned.
    pub open spec fn restarted(self) -> Self {
        self.restart_begun().stopped().in_state(ExtHostLifecycleState::ServerStarting)
    }

    /// What is reported at the time `now`.
    pub open spec fn report(self, now: u64) -> ReportView {
        ReportView {
            running: self.session is Some,
            port: match self.session {
                Some(session) => Some(session.port),
                None => None,
            },
            session_id: match self.session {
                Some(session) => Some(session.session_id),
                None => None,
            },
            uptime_secs: match self.session {
                Some(session) => Some(session.uptime_secs(now)),
                None => None,
            },
            restart_count: if self.session is Some {
                self.restart_count
            } else {
                0
            },
            total_crashes: self.total_crashes,
            lifecycle_state: self.lifecycle_state,
            crash_loop_detected: self.crash_loop_detected,
        }
    }
}

} // verus!
