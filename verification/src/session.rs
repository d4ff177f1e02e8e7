//! The values that go in and out of the supervisor.

use crate::lifecycle::ExtHostLifecycleState;
use crate::model::{nanos_between, ReportView, SessionView, NANOS_PER_SECOND};
use vstd::prelude::*;

verus! {

/// The Node runtime that hosts run in.
#[derive(Debug, Clone)]
pub struct NodeRuntimeInfo {
    pub path: String,
    pub version: Option<String>,
    pub source: String,
    pub bundled: bool,
}

/// A host process that listens on its port.
#[derive(Debug, Clone)]
pub struct StartedSession {
    pub port: u16,
    pub session_id: String,
    pub node_runtime: NodeRuntimeInfo,
    pub server_script_path: String,
}

/// The host that the supervisor looks after. Times are in nanoseconds of the caller's
/// monotonic clock.
#[derive(Debug, Clone)]
pub struct ExtHostSession {
    pub port: u16,
    pub session_id: String,
    pub started_at: u64,
}

/// Why a start is refused.
#[derive(Debug, Clone, Copy, PartialEq, Eq, Structural)]
pub enum StartRefusal {
    /// A crash loop was found before, and nobody has asked for a restart since.
    Degraded,
    /// The crash that was found just now completes a crash loop.
    CrashLoop,
}

/// The answer to a request for a started host.
#[derive(Debug, Clone, Copy, PartialEq, Eq, Structural)]
pub enum StartStep {
    /// No host is started.
    Refused(StartRefusal),
    /// The host runs already, and listens on this port.
    Running(u16),
    /// The caller has to spawn a host, and to report what came of it.
    Spawn,
}

/// What the supervisor reports of itself.
#[derive(Debug, Clone)]
pub struct ExtensionPlatformRuntimeState {
    pub running: bool,
    pub port: Option<u16>,
    pub session_id: Option<String>,
    pub uptime_secs: Option<u64>,
    pub restart_count: u32,
    pub total_crashes: u32,
    pub lifecycle_state: ExtHostLifecycleState,
    pub crash_loop_detected: bool,
}

impl View for ExtHostSession {
    type V = SessionView;

    open spec fn view(&self) -> SessionView {
        SessionView {
            port: self.port,
            session_id: self.session_id@,
            started_at: self.started_at,
        }
    }
}

/// The nanoseconds from `since` to `now`; none if `now` is the earlier of the two.
pub fn elapsed_nanos(since: u64, now: u64) -> (nanos: u64)
    ensures
        nanos == nanos_between(since, now),
        now >= since ==> nanos == now - since,
        now < since ==> nanos == 0,
{
    if now >= since {
        now - since
    } else {
        0
    }
}

impl ExtHostSession {
    /// The whole seconds that the host has run at the time `now`.
    pub fn uptime_secs(&self, now: u64) -> (secs: u64)
        ensures
            secs == self@.uptime_secs(now),
            now >= self.started_at ==> secs * 1_000_000_000 <= now - self.started_at < (secs + 1)
                * 1_000_000_000,
            now < self.started_at ==> secs == 0,
    {
        elapsed_nanos(self.started_at, now) / NANOS_PER_SECOND
    }
}

impl StartedSession {
    /// The session that this host becomes when it is taken over at the time `now`.
    pub open spec fn as_session(self, now: u64) -> SessionView {
        SessionView { port: self.port, session_id: self.session_id@, started_at: now }
    }
}

impl View for ExtensionPlatformRuntimeState {
    type V = ReportView;

    open spec fn view(&self) -> ReportView {
        ReportView {
            running: self.running,
            port: self.port,
            session_id: match self.session_id {
                Some(session_id) => Some(session_id@),
                None => None,
            },
            uptime_secs: self.uptime_secs,
            restart_count: self.restart_count as nat,
            total_crashes: self.total_crashes as nat,
            lifecycle_state: self.lifecycle_state,
            crash_loop_detected: self.crash_loop_detected,
        }
    }
}

/// The sentence that tells the user why no host is started.
pub open spec fn refusal_text(refusal: StartRefusal) -> Seq<char> {
    match refusal {
        StartRefusal::Degraded => "Extension host is in Degraded state due to repeated crashes. Use extension_platform_restart to manually restart."@,
        StartRefusal::CrashLoop => "Extension host crash loop detected. State set to Degraded. Please restart manually via extension_platform_restart."@,
    }
}

impl StartRefusal {
    /// The sentence that tells the user why no host is started.
    pub fn message(&self) -> (text: String)
        ensures
            text@ == refusal_text(*self),
    {
        let text: &str = match self {
            StartRefusal::Degraded => "Extension host is in Degraded state due to repeated crashes. Use extension_platform_restart to manually restart.",
            StartRefusal::CrashLoop => "Extension host crash loop detected. State set to Degraded. Please restart manually via extension_platform_restart.",
        };
        text.to_owned()
    }
}

/// The supervisor's model of a session is the session: its port, its id and the time at which it
/// was taken over.
pub proof fn a_session_is_seen_as_it_is(session: ExtHostSession)
    ensures
        session@.port == session.port,
        session@.session_id == session.session_id@,
        session@.started_at == session.started_at,
{
}

/// A started host is taken over under its own port and id, at the time at which it is taken over.
pub proof fn a_started_host_is_taken_over_as_it_is(started: StartedSession, now: u64)
    ensures
        started.as_session(now).port == started.port,
        started.as_session(now).session_id == started.session_id@,
        started.as_session(now).started_at == now,
{
}

/// The model of a report is the report, field by field.
pub proof fn a_report_is_seen_as_it_is(report: ExtensionPlatformRuntimeState)
    ensures
        report@.running == report.running,
        report@.port == report.port,
        report@.session_id is Some <==> report.session_id is Some,
        report.session_id is Some ==> report@.session_id->0 == report.session_id->0@,
        report@.uptime_secs == report.uptime_secs,
        report@.restart_count == report.restart_count,
        report@.total_crashes == report.total_crashes,
        report@.lifecycle_state == report.lifecycle_state,
        report@.crash_loop_detected == report.crash_loop_detected,
{
}

} // verus!
