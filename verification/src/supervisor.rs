//! The supervisor of the extension host: which host runs, what became of the hosts before
//! it, and whether another one may be started.
//!
//! Times are in nanoseconds of a monotonic clock that the caller reads.

use crate::failure::{failure_state, lifecycle_for_error};
use crate::lifecycle::ExtHostLifecycleState;
use crate::model::{
    recent_crashes, CrashView, SessionView, SupervisorView, CRASH_LOOP_THRESHOLD,
    CRASH_WINDOW_NANOS,
};
use crate::session::{
    elapsed_nanos, ExtHostSession, ExtensionPlatformRuntimeState, StartRefusal, StartStep, StartedSession,
};
use crate::text::same_text;
use std::collections::VecDeque;
use vstd::prelude::*;

verus! {

/// One crash of a host.
struct CrashRecord {
    timestamp: u64,
    session_id: String,
}

/// Looks after one extension host at a time.
pub struct ExtensionPlatformSupervisor {
    session: Option<ExtHostSession>,
    total_crashes: u32,
    restart_count: u32,
    lifecycle_state: ExtHostLifecycleState,
    crash_history: VecDeque<CrashRecord>,
    crash_loop_detected: bool,
    degraded_at: Option<u64>,
}

impl View for CrashRecord {
    type V = CrashView;

    closed spec fn view(&self) -> CrashView {
        CrashView { timestamp: self.timestamp, session_id: self.session_id@ }
    }
}

spec fn crash_views(records: Seq<CrashRecord>) -> Seq<CrashView> {
    records.map_values(|record: CrashRecord| record@)
}

spec fn session_view(session: Option<ExtHostSession>) -> Option<SessionView> {
    match session {
        Some(session) => Some(session@),
        None => None,
    }
}

impl View for ExtensionPlatformSupervisor {
    type V = SupervisorView;

    closed spec fn view(&self) -> SupervisorView {
        SupervisorView {
            session: session_view(self.session),
            total_crashes: self.total_crashes as nat,
            restart_count: self.restart_count as nat,
            lifecycle_state: self.lifecycle_state,
            crash_history: crash_views(self.crash_history@),
            crash_loop_detected: self.crash_loop_detected,
            degraded_at: self.degraded_at,
        }
    }
}

/// Drops the records that no longer count at the time `now`.
fn retain_recent(history: &mut VecDeque<CrashRecord>, now: u64)
    ensures
        crash_views(final(history)@) == recent_crashes(crash_views(old(history)@), now),
{
    let ghost all = crash_views(history@);
    let ghost keep = |crash: CrashView| crash.is_recent(now);
    let count = history.len();
    proof {
        assert(all.skip(0) + all.take(0).filter(keep) == all) by {
            reveal(Seq::filter);
        }
    }
    for i in 0..count
        invariant
            count == all.len(),
            keep == (|crash: CrashView| crash.is_recent(now)),
            crash_views(history@) == all.skip(i as int) + all.take(i as int).filter(keep),
    {
        let ghost before = crash_views(history@);
        assert(before.len() > 0);
        assert(before[0] == all[i as int]);
        if let Some(record) = history.pop_front() {
            assert(crash_views(history@) == before.drop_first());
            let recent = elapsed_nanos(record.timestamp, now) < CRASH_WINDOW_NANOS;
            assert(recent == keep(all[i as int]));
            if recent {
                history.push_back(record);
            }
        }
        proof {
            assert(all.take(i + 1).drop_last() == all.take(i as int));
            assert(all.take(i + 1).last() == all[i as int]);
            assert(all.take(i + 1).filter(keep) == if keep(all[i as int]) {
                all.take(i as int).filter(keep).push(all[i as int])
            } else {
                all.take(i as int).filter(keep)
            }) by {
                reveal(Seq::filter);
            }
            assert(before.drop_first() == all.skip(i + 1) + all.take(i as int).filter(keep));
            if keep(all[i as int]) {
                assert(crash_views(history@) == before.drop_first().push(all[i as int]));
            }
        }
    }
    assert(all.skip(count as int) + all.take(count as int).filter(keep) == all.filter(keep)) by {
        assert(all.take(count as int) == all);
    }
}

impl ExtensionPlatformSupervisor {
    /// A supervisor without a host and without a history.
    pub fn new() -> (supervisor: Self)
        ensures
            supervisor@ == SupervisorView::initial(),
            supervisor@.wf(),
    {
        let supervisor = ExtensionPlatformSupervisor {
            session: None,
            total_crashes: 0,
            restart_count: 0,
            lifecycle_state: ExtHostLifecycleState::Idle,
            crash_history: VecDeque::with_capacity(10),
            crash_loop_detected: false,
            degraded_at: None,
        };
        assert(supervisor@.crash_history == Seq::<CrashView>::empty());
        supervisor
    }

    /// Notes `state`, whatever was noted before.
    pub fn set_lifecycle_state(&mut self, state: ExtHostLifecycleState)
        ensures
            final(self)@ == old(self)@.in_state(state),
            old(self)@.loop_is_dated() ==> final(self)@.loop_is_dated(),
            old(self)@.wf() ==> final(self)@.wf(),
    {
        self.lifecycle_state = state;
    }

    /// Answers a request for a started host. `child_exited` tells whether the process of the
    /// current host, if there is one, was seen to have exited. On `StartStep::Spawn` the caller
    /// spawns a host and reports the outcome to `finish_start`.
    pub fn ensure_started(&mut self, now: u64, child_exited: bool) -> (step: StartStep)
        requires
            old(self)@.session is Some && child_exited && !old(self)@.crash_loop_detected
                ==> old(self)@.total_crashes < u32::MAX,
        ensures
            step == old(self)@.start_step(now, child_exited),
            final(self)@ == old(self)@.after_start_request(now, child_exited),
            old(self)@.loop_is_dated() ==> final(self)@.loop_is_dated(),
            old(self)@.wf() ==> final(self)@.wf(),
    {
        if self.crash_loop_detected {
            return StartStep::Refused(StartRefusal::Degraded);
        }
        if let Some(session) = &self.session {
            if !child_exited {
                return StartStep::Running(session.port);
            }
            self.check_child_exit(now, child_exited);
            if self.crash_loop_detected {
                return StartStep::Refused(StartRefusal::CrashLoop);
            }
        }
        self.lifecycle_state = ExtHostLifecycleState::ServerStarting;
        StartStep::Spawn
    }

    fn forget_crash_loop(&mut self)
        ensures
            final(self)@ == old(self)@.without_crash_loop(),
    {
        self.crash_loop_detected = false;
        self.degraded_at = None;
        self.crash_history.clear();
        assert(self@.crash_history == Seq::<CrashView>::empty());
    }

    /// Notes a crash if the process of the current host was seen to have exited.
    pub fn check_child_exit(&mut self, now: u64, child_exited: bool)
        requires
            old(self)@.session is Some && child_exited ==> old(self)@.total_crashes < u32::MAX,
        ensures
            final(self)@ == old(self)@.after_child_check(now, child_exited),
            old(self)@.loop_is_dated() ==> final(self)@.loop_is_dated(),
            old(self)@.wf() ==> final(self)@.wf(),
    {
        if !child_exited {
            return;
        }
        if let Some(session) = self.session.take() {
            let ghost crash = CrashView { timestamp: now, session_id: session.session_id@ };
            self.total_crashes = self.total_crashes + 1;
            self.crash_history.push_back(
                CrashRecord { timestamp: now, session_id: session.session_id },
            );
            assert(crash_views(self.crash_history@) == old(self)@.crash_history.push(crash));
            self.lifecycle_state = ExtHostLifecycleState::HostExited;
            retain_recent(&mut self.crash_history, now);
            if self.crash_history.len() > CRASH_LOOP_THRESHOLD {
                self.crash_loop_detected = true;
                self.degraded_at = Some(now);
                self.lifecycle_state = ExtHostLifecycleState::Degraded;
            }
        }
    }

    /// Takes over the outcome of a spawn that `ensure_started` asked for: the port of the new
    /// host, or the error that the spawn ended with.
    pub fn finish_start(&mut self, started: Result<StartedSession, String>, now: u64) -> (outcome:
        Result<u16, String>)
        requires
            started is Ok ==> old(self)@.restart_count < u32::MAX,
        ensures
            match started {
                Ok(session) => {
                    &&& outcome == Ok::<u16, String>(session.port)
                    &&& final(self)@ == old(self)@.started(session.as_session(now))
                },
                Err(error) => {
                    &&& outcome == Err::<u16, String>(error)
                    &&& final(self)@ == old(self)@.in_state(failure_state(error@))
                },
            },
            old(self)@.loop_is_dated() ==> final(self)@.loop_is_dated(),
            old(self)@.wf() && !old(self)@.crash_loop_detected ==> final(self)@.wf(),
    {
        match started {
            Ok(session) => {
                let port = session.port;
                self.restart_count = self.restart_count + 1;
                self.install_session(session, now);
                self.lifecycle_state = ExtHostLifecycleState::ServerListening;
                Ok(port)
            },
            Err(error) => {
                self.lifecycle_state = lifecycle_for_error(error.as_str());
                Err(error)
            },
        }
    }

    /// Whether there is no host, so that one has to be spawned for `install_session`.
    pub fn needs_session(&self) -> (needed: bool)
        ensures
            needed == (self@.session is None),
    {
        self.session.is_none()
    }

    /// Makes a started host the current one, and changes nothing else.
    pub fn install_session(&mut self, started: StartedSession, now: u64)
        ensures
            final(self)@ == old(self)@.with_session(started.as_session(now)),
            old(self)@.loop_is_dated() ==> final(self)@.loop_is_dated(),
            old(self)@.wf() && !old(self)@.crash_loop_detected ==> final(self)@.wf(),
    {
        self.session = Some(
            ExtHostSession { port: started.port, session_id: started.session_id, started_at: now },
        );
    }

    /// The state to note for an event of the host `session_id`: `state`, unless the event is
    /// stale, that is, names no host or another one than the current.
    pub fn set_state_if_session_match(
        &self,
        state: ExtHostLifecycleState,
        session_id: &str,
    ) -> (accepted: Option<ExtHostLifecycleState>)
        ensures
            accepted == if self@.is_current(session_id@) {
                Some(state)
            } else {
                None
            },
            accepted is Some <==> session_id@.len() > 0 && self@.session is Some
                && self@.session->0.session_id == session_id@,
            accepted is Some ==> accepted->0 == state,
    {
        if session_id.is_empty() {
            return None;
        }
        match &self.session {
            Some(session) => {
                if same_text(session.session_id.as_str(), session_id) {
                    Some(state)
                } else {
                    None
                }
            },
            None => None,
        }
    }

    fn note_event(&mut self, state: ExtHostLifecycleState, session_id: &str)
        ensures
            final(self)@ == old(self)@.after_event(state, session_id@),
            old(self)@.loop_is_dated() ==> final(self)@.loop_is_dated(),
            old(self)@.wf() ==> final(self)@.wf(),
    {
        if let Some(accepted) = self.set_state_if_session_match(state, session_id) {
            self.lifecycle_state = accepted;
        }
    }

    /// The workbench has connected to the host `session_id`.
    pub fn on_ws_connected(&mut self, session_id: &str)
        ensures
            final(self)@ == old(self)@.after_event(
                ExtHostLifecycleState::WsConnected,
                session_id@,
            ),
            old(self)@.loop_is_dated() ==> final(self)@.loop_is_dated(),
            old(self)@.wf() ==> final(self)@.wf(),
    {
        self.note_event(ExtHostLifecycleState::WsConnected, session_id);
    }

    /// The host `session_id` can activate extensions.
    pub fn on_host_ready(&mut self, session_id: &str)
        ensures
            final(self)@ == old(self)@.after_event(ExtHostLifecycleState::HostReady, session_id@),
            old(self)@.loop_is_dated() ==> final(self)@.loop_is_dated(),
            old(self)@.wf() ==> final(self)@.wf(),
    {
        self.note_event(ExtHostLifecycleState::HostReady, session_id);
    }

    /// The connection to the host `session_id` was closed.
    pub fn on_ws_closed(&mut self, session_id: &str)
        ensures
            final(self)@ == old(self)@.after_event(ExtHostLifecycleState::WsClosed, session_id@),
            old(self)@.loop_is_dated() ==> final(self)@.loop_is_dated(),
            old(self)@.wf() ==> final(self)@.wf(),
    {
        self.note_event(ExtHostLifecycleState::WsClosed, session_id);
    }

    /// The host `session_id` did not become ready in time.
    pub fn on_host_ready_timeout(&mut self, session_id: &str)
        ensures
            final(self)@ == old(self)@.after_event(
                ExtHostLifecycleState::HostReadyTimeout,
                session_id@,
            ),
            old(self)@.loop_is_dated() ==> final(self)@.loop_is_dated(),
            old(self)@.wf() ==> final(self)@.wf(),
    {
        self.note_event(ExtHostLifecycleState::HostReadyTimeout, session_id);
    }

    /// An extension failed to activate in the host `session_id`.
    pub fn on_activation_failed(&mut self, session_id: &str)
        ensures
            final(self)@ == old(self)@.after_event(
                ExtHostLifecycleState::ActivationFailed,
                session_id@,
            ),
            old(self)@.loop_is_dated() ==> final(self)@.loop_is_dated(),
            old(self)@.wf() ==> final(self)@.wf(),
    {
        self.note_event(ExtHostLifecycleState::ActivationFailed, session_id);
    }

    /// The host `session_id` reported its own exit.
    pub fn on_host_exited(&mut self, session_id: &str)
        ensures
            final(self)@ == old(self)@.after_event(ExtHostLifecycleState::HostExited, session_id@),
            old(self)@.loop_is_dated() ==> final(self)@.loop_is_dated(),
            old(self)@.wf() ==> final(self)@.wf(),
    {
        self.note_event(ExtHostLifecycleState::HostExited, session_id);
    }

    /// Gives up the current host, and hands it out for the caller to end its process.
    pub fn stop(&mut self) -> (ended: Option<ExtHostSession>)
        ensures
            final(self)@ == old(self)@.stopped(),
            match ended {
                Some(session) => old(self)@.session == Some(session@),
                None => old(self)@.session is None,
            },
            old(self)@.loop_is_dated() ==> final(self)@.loop_is_dated(),
            old(self)@.wf() ==> final(self)@.wf(),
    {
        let ended = self.session.take();
        self.lifecycle_state = ExtHostLifecycleState::Idle;
        ended
    }

    /// Forgets a crash loop and notes that a restart begins.
    pub fn begin_restart(&mut self)
        ensures
            final(self)@ == old(self)@.restart_begun(),
            final(self)@.loop_is_dated(),
            old(self)@.wf() ==> final(self)@.wf(),
    {
        self.forget_crash_loop();
        self.lifecycle_state = ExtHostLifecycleState::Bootstrapping;
    }

    /// Restarts on request, crash loop or not: hands out the current host for the caller to end
    /// its process, and asks for a new one as `ensure_started` does.
    pub fn restart(&mut self, now: u64) -> (r: (Option<ExtHostSession>, StartStep))
        ensures
            final(self)@ == old(self)@.restarted(),
            match r.0 {
                Some(session) => old(self)@.session == Some(session@),
                None => old(self)@.session is None,
            },
            r.1 == StartStep::Spawn,
            final(self)@.loop_is_dated(),
            old(self)@.wf() ==> final(self)@.wf(),
    {
        self.begin_restart();
        let ended = self.stop();
        let step = self.ensure_started(now, false);
        (ended, step)
    }

    /// Looks at the process of the current host, as `check_child_exit` does, and reports.
    pub fn snapshot(&mut self, now: u64, child_exited: bool) -> (report:
        ExtensionPlatformRuntimeState)
        requires
            old(self)@.session is Some && child_exited ==> old(self)@.total_crashes < u32::MAX,
        ensures
            final(self)@ == old(self)@.after_child_check(now, child_exited),
            report@ == final(self)@.report(now),
            report.running == (final(self)@.session is Some),
            report.running ==> {
                let session = final(self)@.session->0;
                &&& report.port == Some(session.port)
                &&& report.session_id is Some && report.session_id->0@ == session.session_id
                &&& report.uptime_secs is Some
                &&& now >= session.started_at ==> report.uptime_secs->0 * 1_000_000_000 <= now
                    - session.started_at < (report.uptime_secs->0 + 1) * 1_000_000_000
                &&& report.restart_count == final(self)@.restart_count
            },
            !report.running ==> {
                &&& report.port is None
                &&& report.session_id is None
                &&& report.uptime_secs is None
                &&& report.restart_count == 0
            },
            report.total_crashes == final(self)@.total_crashes,
            report.lifecycle_state == final(self)@.lifecycle_state,
            report.crash_loop_detected == final(self)@.crash_loop_detected,
            old(self)@.loop_is_dated() ==> final(self)@.loop_is_dated(),
            old(self)@.wf() ==> final(self)@.wf(),
    {
        self.check_child_exit(now, child_exited);
        match &self.session {
            Some(session) => ExtensionPlatformRuntimeState {
                running: true,
                port: Some(session.port),
                session_id: Some(session.session_id.clone()),
                uptime_secs: Some(session.uptime_secs(now)),
                restart_count: self.restart_count,
                total_crashes: self.total_crashes,
                lifecycle_state: self.lifecycle_state,
                crash_loop_detected: self.crash_loop_detected,
            },
            None => ExtensionPlatformRuntimeState {
                running: false,
                port: None,
                session_id: None,
                uptime_secs: None,
                restart_count: 0,
                total_crashes: self.total_crashes,
                lifecycle_state: self.lifecycle_state,
                crash_loop_detected: self.crash_loop_detected,
            },
        }
    }

    /// How many hosts have crashed.
    pub fn total_crashes(&self) -> (count: u32)
        ensures
            count == self@.total_crashes,
    {
        self.total_crashes
    }

    /// How many hosts have been started.
    pub fn restart_count(&self) -> (count: u32)
        ensures
            count == self@.restart_count,
    {
        self.restart_count
    }
}

} // verus!
