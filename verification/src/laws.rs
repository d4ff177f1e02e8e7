//! What holds of the supervisor over several operations.

use crate::failure::failure_state;
use crate::launch::random_uuid;
use crate::lifecycle::ExtHostLifecycleState;
use crate::model::{
    nanos_between, recent_crashes, CrashView, SessionView, SupervisorView, CRASH_LOOP_THRESHOLD,
    CRASH_WINDOW_NANOS,
};
use crate::session::{StartRefusal, StartStep};
use vstd::prelude::*;

verus! {

/// What came of a spawn: the host, or the sentence that says why there is none.
pub type SpawnOutcome = Result<SessionView, Seq<char>>;

/// One use of the supervisor. `Snapshot` stands for `check_child_exit` as well, which changes the
/// supervisor in the same way. The outcome of a spawn is handed over, with `finish_start`, only
/// where the spawn was asked for: it is part of the use that asked.
pub enum Operation {
    SetState(ExtHostLifecycleState),
    Event(ExtHostLifecycleState, Seq<char>),
    EnsureStarted { now: u64, child_exited: bool, outcome: SpawnOutcome },
    Install(SessionView),
    Stop,
    BeginRestart,
    Restart { outcome: SpawnOutcome },
    Snapshot { now: u64, child_exited: bool },
}

/// The supervisor once it has taken over the outcome of a spawn.
pub open spec fn spawn_finished(before: SupervisorView, outcome: SpawnOutcome) -> SupervisorView {
    match outcome {
        Ok(session) => before.started(session),
        Err(text) => before.in_state(failure_state(text)),
    }
}

/// The supervisor after one use. A spawn that was asked for is carried out at once.
pub open spec fn operated(before: SupervisorView, operation: Operation) -> SupervisorView {
    match operation {
        Operation::SetState(state) => before.in_state(state),
        Operation::Event(state, session_id) => before.after_event(state, session_id),
        Operation::EnsureStarted { now, child_exited, outcome } => {
            let answered = before.after_start_request(now, child_exited);
            if before.start_step(now, child_exited) == StartStep::Spawn {
                spawn_finished(answered, outcome)
            } else {
                answered
            }
        },
        Operation::Install(session) => before.with_session(session),
        Operation::Stop => before.stopped(),
        Operation::BeginRestart => before.restart_begun(),
        Operation::Restart { outcome } => spawn_finished(before.restarted(), outcome),
        Operation::Snapshot { now, child_exited } => before.after_child_check(now, child_exited),
    }
}

/// The supervisor after a number of uses.
pub open spec fn after_all(start: SupervisorView, operations: Seq<Operation>) -> SupervisorView
    decreases operations.len(),
{
    if operations.len() == 0 {
        start
    } else {
        operated(after_all(start, operations.drop_last()), operations.last())
    }
}

/// The use is one that the supervisor is made for: while a crash loop is on record, no host is
/// installed beside it.
pub open spec fn is_proper(before: SupervisorView, operation: Operation) -> bool {
    operation is Install ==> !before.crash_loop_detected
}

/// Each use is proper when its turn comes.
pub open spec fn all_proper(start: SupervisorView, operations: Seq<Operation>) -> bool
    decreases operations.len(),
{
    operations.len() == 0 || {
        &&& all_proper(start, operations.drop_last())
        &&& is_proper(after_all(start, operations.drop_last()), operations.last())
    }
}

/// The use is a restart, or begins one.
pub open spec fn is_restart(operation: Operation) -> bool {
    operation is BeginRestart || operation is Restart
}

/// The use starts a host. One that is only installed was not started by the supervisor.
pub open spec fn starts_a_host(before: SupervisorView, operation: Operation) -> bool {
    match operation {
        Operation::EnsureStarted { now, child_exited, outcome } => {
            before.start_step(now, child_exited) == StartStep::Spawn && outcome is Ok
        },
        Operation::Restart { outcome } => outcome is Ok,
        _ => false,
    }
}

/// The use finds that the current host has exited.
pub open spec fn finds_a_crash(before: SupervisorView, operation: Operation) -> bool {
    match operation {
        Operation::EnsureStarted { now, child_exited, .. } => {
            before.session is Some && child_exited && !before.crash_loop_detected
        },
        Operation::Snapshot { child_exited, .. } => before.session is Some && child_exited,
        _ => false,
    }
}

/// Every use keeps it so that a crash loop is on record exactly if its time is.
pub proof fn every_operation_keeps_a_crash_loop_dated(before: SupervisorView, operation: Operation)
    requires
        before.loop_is_dated(),
    ensures
        operated(before, operation).loop_is_dated(),
{
}

/// However a new supervisor is used, a crash loop is on record exactly if its time is.
pub proof fn a_crash_loop_always_has_its_time(operations: Seq<Operation>)
    ensures
        after_all(SupervisorView::initial(), operations).loop_is_dated(),
    decreases operations.len(),
{
    if operations.len() > 0 {
        a_crash_loop_always_has_its_time(operations.drop_last());
        every_operation_keeps_a_crash_loop_dated(
            after_all(SupervisorView::initial(), operations.drop_last()),
            operations.last(),
        );
    }
}

/// Every proper use keeps the supervisor well-formed.
pub proof fn every_operation_keeps_the_supervisor_well_formed(
    before: SupervisorView,
    operation: Operation,
)
    requires
        before.wf(),
        is_proper(before, operation),
    ensures
        operated(before, operation).wf(),
{
}

/// A new supervisor stays well-formed through any number of proper uses: a crash loop is on record
/// with its time and without a host beside it, exactly while more crashes are remembered than the
/// threshold allows.
pub proof fn every_reachable_supervisor_is_well_formed(operations: Seq<Operation>)
    requires
        all_proper(SupervisorView::initial(), operations),
    ensures
        after_all(SupervisorView::initial(), operations).wf(),
    decreases operations.len(),
{
    if operations.len() > 0 {
        every_reachable_supervisor_is_well_formed(operations.drop_last());
        every_operation_keeps_the_supervisor_well_formed(
            after_all(SupervisorView::initial(), operations.drop_last()),
            operations.last(),
        );
    }
}

/// The counts tell the history: a use adds one crash exactly if it finds one, and one start
/// exactly if it starts a host; no use, not even a restart, takes anything off.
pub proof fn counts_tell_the_history(before: SupervisorView, operation: Operation)
    ensures
        operated(before, operation).total_crashes == before.total_crashes + if finds_a_crash(
            before,
            operation,
        ) {
            1nat
        } else {
            0nat
        },
        operated(before, operation).restart_count == before.restart_count + if starts_a_host(
            before,
            operation,
        ) {
            1nat
        } else {
            0nat
        },
{
}

/// A host is only asked for where none runs, so there are never two.
pub proof fn a_host_is_spawned_only_where_none_runs(
    before: SupervisorView,
    now: u64,
    child_exited: bool,
)
    requires
        before.wf(),
        before.start_step(now, child_exited) == StartStep::Spawn,
    ensures
        before.after_start_request(now, child_exited).session is None,
        !before.after_start_request(now, child_exited).crash_loop_detected,
        before.after_start_request(now, child_exited).wf(),
{
}

/// A request for a host, while one runs, gives that host's port and changes nothing.
pub proof fn a_running_host_is_kept(before: SupervisorView, now: u64)
    requires
        before.wf(),
        before.session is Some,
    ensures
        before.start_step(now, false) == StartStep::Running(before.session->0.port),
        before.after_start_request(now, false) == before,
{
}

/// What was started is what is reported, and what the next request gives.
pub proof fn a_started_host_is_reported(before: SupervisorView, session: SessionView, now: u64)
    requires
        before.wf(),
        !before.crash_loop_detected,
    ensures
        ({
            let after = before.started(session);
            let report = after.report(now);
            &&& report.running
            &&& report.port == Some(session.port)
            &&& report.session_id == Some(session.session_id)
            &&& report.uptime_secs == Some(session.uptime_secs(now))
            &&& report.restart_count == before.restart_count + 1
            &&& report.total_crashes == before.total_crashes
            &&& report.lifecycle_state == ExtHostLifecycleState::ServerListening
            &&& !report.crash_loop_detected
            &&& after.start_step(now, false) == StartStep::Running(session.port)
        }),
{
}

/// A start that failed leaves no host, and counts as neither a start nor a crash.
pub proof fn a_failed_start_leaves_no_host(
    before: SupervisorView,
    now: u64,
    child_exited: bool,
    text: Seq<char>,
)
    requires
        before.wf(),
        before.start_step(now, child_exited) == StartStep::Spawn,
    ensures
        ({
            let answered = before.after_start_request(now, child_exited);
            let after = spawn_finished(answered, Err(text));
            &&& after.session is None
            &&& after.total_crashes == answered.total_crashes
            &&& after.restart_count == before.restart_count
            &&& after.lifecycle_state == failure_state(text)
            &&& after.start_step(now, false) == StartStep::Spawn
        }),
{
}

/// After a stop nothing runs, and nothing but the host and the lifecycle state is lost.
pub proof fn nothing_runs_after_a_stop(before: SupervisorView, now: u64)
    ensures
        !before.stopped().report(now).running,
        before.stopped().report(now).lifecycle_state == ExtHostLifecycleState::Idle,
        before.stopped() == (SupervisorView {
            session: None,
            lifecycle_state: ExtHostLifecycleState::Idle,
            ..before
        }),
        before.stopped().stopped() == before.stopped(),
{
}

/// A crash is counted once, however often the exited process is looked at.
pub proof fn a_crash_is_counted_once(before: SupervisorView, now: u64, later: u64, exited: bool)
    requires
        before.session is Some,
    ensures
        before.after_child_check(now, true).total_crashes == before.total_crashes + 1,
        before.after_child_check(now, true).session is None,
        before.after_child_check(now, true).after_child_check(later, exited)
            == before.after_child_check(now, true),
{
}

/// Looking at a process that runs changes nothing.
pub proof fn a_report_changes_nothing_while_the_host_runs(before: SupervisorView, now: u64)
    ensures
        before.after_child_check(now, false) == before,
{
}

/// An event that names no host, or another one than the current, changes nothing; one that names
/// the current host changes the lifecycle state and nothing else.
pub proof fn stale_events_change_nothing(
    before: SupervisorView,
    state: ExtHostLifecycleState,
    session_id: Seq<char>,
)
    ensures
        session_id.len() == 0 ==> before.after_event(state, session_id) == before,
        before.session is None ==> before.after_event(state, session_id) == before,
        before.session is Some && before.session->0.session_id != session_id
            ==> before.after_event(state, session_id) == before,
        before.after_event(state, session_id) == before || before.after_event(state, session_id)
            == (SupervisorView { lifecycle_state: state, ..before }),
{
}

/// An event that names the current host is always noted, whatever the event and whatever was noted
/// before it: the last event heard is the state.
pub proof fn every_event_of_the_current_host_is_noted(
    before: SupervisorView,
    state: ExtHostLifecycleState,
    session_id: Seq<char>,
    next: ExtHostLifecycleState,
)
    requires
        session_id.len() > 0,
        before.session is Some,
        before.session->0.session_id == session_id,
    ensures
        before.is_current(session_id),
        before.after_event(state, session_id) == (SupervisorView {
            lifecycle_state: state,
            ..before
        }),
        before.after_event(state, session_id).after_event(next, session_id) == (SupervisorView {
            lifecycle_state: next,
            ..before
        }),
{
}

/// A host is current only if it is named, runs, and bears that name.
pub proof fn only_the_running_host_is_current(before: SupervisorView, session_id: Seq<char>)
    requires
        before.is_current(session_id),
    ensures
        session_id.len() > 0,
        before.session is Some,
        before.session->0.session_id == session_id,
{
}

/// What an earlier host still reports does not reach the host that was started after it.
pub proof fn events_of_an_earlier_host_do_not_reach_the_next(
    before: SupervisorView,
    next: SessionView,
    state: ExtHostLifecycleState,
)
    requires
        before.session is Some,
        before.session->0.session_id != next.session_id,
    ensures
        before.started(next).after_event(state, before.session->0.session_id) == before.started(
            next,
        ),
        before.restarted().started(next).after_event(state, before.session->0.session_id)
            == before.restarted().started(next),
        before.stopped().after_event(state, before.session->0.session_id) == before.stopped(),
{
}

/// A host that was given a random UUID for its session id is heard.
pub proof fn events_of_a_started_host_are_heard(
    before: SupervisorView,
    session: SessionView,
    state: ExtHostLifecycleState,
)
    requires
        random_uuid(session.session_id),
    ensures
        before.started(session).after_event(state, session.session_id).lifecycle_state == state,
{
}

/// A restart asks for a host in every state, a crash loop included; it forgets the crash loop and
/// keeps the counts.
pub proof fn a_restart_works_in_every_state(before: SupervisorView, now: u64)
    ensures
        before.restart_begun().stopped().start_step(now, false) == StartStep::Spawn,
        before.restart_begun().stopped().after_start_request(now, false) == before.restarted(),
        before.restarted().session is None,
        !before.restarted().crash_loop_detected,
        before.restarted().crash_history.len() == 0,
        before.restarted().total_crashes == before.total_crashes,
        before.restarted().restart_count == before.restart_count,
{
}

/// A crash loop keeps a host from being started on request, whatever the time; the request changes
/// nothing.
pub proof fn a_crash_loop_blocks_every_start(
    before: SupervisorView,
    now: u64,
    child_exited: bool,
)
    requires
        before.crash_loop_detected,
    ensures
        before.start_step(now, child_exited) == StartStep::Refused(StartRefusal::Degraded),
        before.after_start_request(now, child_exited) == before,
{
}

/// A crash loop is lifted by a restart, and by no other use.
pub proof fn only_a_restart_lifts_a_crash_loop(before: SupervisorView, operation: Operation)
    requires
        before.crash_loop_detected,
    ensures
        operated(before, operation).crash_loop_detected <==> !is_restart(operation),
{
}

/// Until somebody asks for a restart, a crash loop stays on record through any number of uses, and
/// every request for a host is refused.
pub proof fn a_crash_loop_lasts_until_a_restart(
    start: SupervisorView,
    operations: Seq<Operation>,
    now: u64,
    child_exited: bool,
)
    requires
        start.crash_loop_detected,
        forall|i: int| 0 <= i < operations.len() ==> !is_restart(#[trigger] operations[i]),
    ensures
        after_all(start, operations).crash_loop_detected,
        after_all(start, operations).start_step(now, child_exited) == StartStep::Refused(
            StartRefusal::Degraded,
        ),
    decreases operations.len(),
{
    if operations.len() > 0 {
        let earlier = operations.drop_last();
        assert forall|i: int| 0 <= i < earlier.len() implies !is_restart(#[trigger] earlier[i]) by {
            assert(earlier[i] == operations[i]);
        }
        a_crash_loop_lasts_until_a_restart(start, earlier, now, child_exited);
        only_a_restart_lifts_a_crash_loop(after_all(start, earlier), operations.last());
    }
}

proof fn filter_of_push(history: Seq<CrashView>, crash: CrashView, now: u64)
    ensures
        recent_crashes(history.push(crash), now) == if crash.is_recent(now) {
            recent_crashes(history, now).push(crash)
        } else {
            recent_crashes(history, now)
        },
{
    reveal(Seq::filter);
    assert(history.push(crash).drop_last() == history);
}

/// Four crashes within the window, with new hosts in between, are a crash loop.
pub proof fn four_crashes_within_the_window_are_a_crash_loop(
    before: SupervisorView,
    first: u64,
    second_host: SessionView,
    second: u64,
    third_host: SessionView,
    third: u64,
    fourth_host: SessionView,
    fourth: u64,
)
    requires
        before.session is Some,
        first <= second <= third <= fourth,
        fourth - first < CRASH_WINDOW_NANOS,
    ensures
        ({
            let after = before.crashed(first).started(second_host).crashed(second).started(
                third_host,
            ).crashed(third).started(fourth_host).crashed(fourth);
            &&& after.crash_loop_detected
            &&& after.degraded_at == Some(fourth)
            &&& after.lifecycle_state == ExtHostLifecycleState::Degraded
            &&& after.session is None
        }),
{
    let a = before.crashed(first);
    let b = a.started(second_host).crashed(second);
    let c = b.started(third_host).crashed(third);
    let d = c.started(fourth_host).crashed(fourth);
    let one = CrashView { timestamp: first, session_id: before.session->0.session_id };
    let two = CrashView { timestamp: second, session_id: second_host.session_id };
    let three = CrashView { timestamp: third, session_id: third_host.session_id };
    let four = CrashView { timestamp: fourth, session_id: fourth_host.session_id };
    let a0 = recent_crashes(before.crash_history, first);
    filter_of_push(before.crash_history, one, first);
    assert(a.crash_history == a0.push(one));
    let b0 = recent_crashes(a0, second);
    filter_of_push(a0, one, second);
    filter_of_push(a.crash_history, two, second);
    assert(b.crash_history == b0.push(one).push(two));
    let c0 = recent_crashes(b0, third);
    filter_of_push(b0, one, third);
    filter_of_push(b0.push(one), two, third);
    filter_of_push(b.crash_history, three, third);
    assert(c.crash_history == c0.push(one).push(two).push(three));
    filter_of_push(c0, one, fourth);
    filter_of_push(c0.push(one), two, fourth);
    filter_of_push(c0.push(one).push(two), three, fourth);
    filter_of_push(c.crash_history, four, fourth);
    assert(d.crash_history == recent_crashes(c0, fourth).push(one).push(two).push(three).push(four));
}

/// A crash is a crash loop exactly if, itself included, more crashes than the threshold allows lie
/// within the window; only then is the supervisor degraded.
pub proof fn a_crash_degrades_exactly_above_the_threshold(before: SupervisorView, now: u64)
    requires
        before.wf(),
        before.session is Some,
    ensures
        ({
            let after = before.crashed(now);
            let above = before.crashes_with_this_one(now).len() > CRASH_LOOP_THRESHOLD;
            &&& after.crash_loop_detected <==> above
            &&& after.lifecycle_state == ExtHostLifecycleState::Degraded <==> above
            &&& before.start_step(now, true) == StartStep::Spawn <==> !above
        }),
{
}

proof fn no_recent_crash(history: Seq<CrashView>, now: u64)
    requires
        forall|i: int| 0 <= i < history.len() ==> !(#[trigger] history[i]).is_recent(now),
    ensures
        recent_crashes(history, now).len() == 0,
    decreases history.len(),
{
    reveal(Seq::filter);
    if history.len() > 0 {
        no_recent_crash(history.drop_last(), now);
        assert(!history.last().is_recent(now));
    }
}

/// Crashes that lie outside the window do not count: a crash that follows only such ones is on
/// record alone, and is no crash loop.
pub proof fn old_crashes_do_not_count(before: SupervisorView, now: u64)
    requires
        before.wf(),
        before.session is Some,
        forall|i: int|
            0 <= i < before.crash_history.len() ==> now - (
            #[trigger] before.crash_history[i]).timestamp >= CRASH_WINDOW_NANOS,
    ensures
        before.crashed(now).crash_history == seq![
            CrashView { timestamp: now, session_id: before.session->0.session_id },
        ],
        !before.crashed(now).crash_loop_detected,
        before.crashed(now).lifecycle_state == ExtHostLifecycleState::HostExited,
        before.start_step(now, true) == StartStep::Spawn,
{
    let crash = CrashView { timestamp: now, session_id: before.session->0.session_id };
    assert forall|i: int| 0 <= i < before.crash_history.len() implies !(
    #[trigger] before.crash_history[i]).is_recent(now) by {
        assert(nanos_between(before.crash_history[i].timestamp, now) >= CRASH_WINDOW_NANOS);
    }
    no_recent_crash(before.crash_history, now);
    filter_of_push(before.crash_history, crash, now);
}

/// Three crashes in all are never a crash loop.
pub proof fn three_crashes_are_no_crash_loop(operations: Seq<Operation>)
    requires
        all_proper(SupervisorView::initial(), operations),
        after_all(SupervisorView::initial(), operations).total_crashes <= CRASH_LOOP_THRESHOLD,
    ensures
        !after_all(SupervisorView::initial(), operations).crash_loop_detected,
{
    every_reachable_supervisor_is_well_formed(operations);
}

/// A new supervisor knows of no host, no start and no crash.
pub proof fn a_new_supervisor_knows_nothing()
    ensures
        ({
            let new = SupervisorView::initial();
            &&& new.session is None
            &&& new.total_crashes == 0
            &&& new.restart_count == 0
            &&& new.lifecycle_state == ExtHostLifecycleState::Idle
            &&& new.crash_history.len() == 0
            &&& !new.crash_loop_detected
            &&& new.degraded_at is None
        }),
{
}

/// Time runs as it is read: between two readings lies their difference, and nothing where the
/// clock ran back.
pub proof fn time_is_the_difference_of_readings(since: u64, now: u64)
    ensures
        now >= since ==> nanos_between(since, now) == now - since,
        now <= since ==> nanos_between(since, now) == 0,
{
}

/// The uptime of a host is the number of whole seconds since it was taken over, however long it
/// has run.
pub proof fn uptime_counts_whole_seconds(session: SessionView, now: u64)
    ensures
        now >= session.started_at ==> session.uptime_secs(now) * 1_000_000_000 <= now
            - session.started_at < (session.uptime_secs(now) + 1) * 1_000_000_000,
        now <= session.started_at ==> session.uptime_secs(now) == 0,
{
}

/// The uptime never runs back while the clock does not, and a second later it is one more.
pub proof fn uptime_grows_with_the_clock(session: SessionView, now: u64, later: u64)
    requires
        session.started_at <= now <= later,
    ensures
        session.uptime_secs(now) <= session.uptime_secs(later),
        later == now + 1_000_000_000 ==> session.uptime_secs(later) == session.uptime_secs(now) + 1,
{
    uptime_counts_whole_seconds(session, now);
    uptime_counts_whole_seconds(session, later);
}

/// A report tells of a host exactly if one runs, and then its port, its session id and its uptime;
/// the counts, the lifecycle state and the crash loop are those on record, but that without a host
/// no start is reported.
pub proof fn a_report_tells_what_is_on_record(before: SupervisorView, now: u64)
    ensures
        ({
            let report = before.report(now);
            &&& report.running <==> before.session is Some
            &&& report.port is Some <==> before.session is Some
            &&& report.session_id is Some <==> before.session is Some
            &&& report.uptime_secs is Some <==> before.session is Some
            &&& before.session is Some ==> {
                &&& report.port->0 == before.session->0.port
                &&& report.session_id->0 == before.session->0.session_id
                &&& now >= before.session->0.started_at ==> report.uptime_secs->0 * 1_000_000_000
                    <= now - before.session->0.started_at < (report.uptime_secs->0 + 1)
                    * 1_000_000_000
                &&& now <= before.session->0.started_at ==> report.uptime_secs->0 == 0
                &&& report.restart_count == before.restart_count
            }
            &&& before.session is None ==> report.restart_count == 0
            &&& report.total_crashes == before.total_crashes
            &&& report.lifecycle_state == before.lifecycle_state
            &&& report.crash_loop_detected == before.crash_loop_detected
        }),
{
    if before.session is Some {
        uptime_counts_whole_seconds(before.session->0, now);
    }
}

proof fn recent_means_younger_than_five_minutes(history: Seq<CrashView>, now: u64)
    ensures
        recent_crashes(history, now) == history.filter(
            |crash: CrashView| now < crash.timestamp + 300_000_000_000,
        ),
{
    let recent = |crash: CrashView| crash.is_recent(now);
    let young = |crash: CrashView| now < crash.timestamp + 300_000_000_000;
    assert(recent =~= young);
}

/// When the running host is found to have exited, the crash goes on record with its time and its
/// host, behind those crashes that are younger than five minutes; the older ones are dropped.
/// The host is gone and the crash counted. The supervisor is degraded exactly if more than three
/// crashes are then on record.
pub proof fn a_found_crash_goes_on_record(before: SupervisorView, now: u64)
    requires
        before.session is Some,
    ensures
        ({
            let after = before.after_child_check(now, true);
            &&& after.crash_history.len() > 0
            &&& after.crash_history.last().timestamp == now
            &&& after.crash_history.last().session_id == before.session->0.session_id
            &&& after.crash_history.drop_last() == before.crash_history.filter(
                |crash: CrashView| now < crash.timestamp + 300_000_000_000,
            )
            &&& after.session is None
            &&& after.total_crashes == before.total_crashes + 1
            &&& after.restart_count == before.restart_count
            &&& after.crash_history.len() > 3 ==> {
                &&& after.crash_loop_detected
                &&& after.degraded_at == Some(now)
                &&& after.lifecycle_state == ExtHostLifecycleState::Degraded
            }
            &&& after.crash_history.len() <= 3 ==> {
                &&& after.crash_loop_detected == before.crash_loop_detected
                &&& after.degraded_at == before.degraded_at
                &&& after.lifecycle_state == ExtHostLifecycleState::HostExited
            }
            &&& after == before.crashed(now)
        }),
{
    let crash = CrashView { timestamp: now, session_id: before.session->0.session_id };
    filter_of_push(before.crash_history, crash, now);
    recent_means_younger_than_five_minutes(before.crash_history, now);
    let kept = recent_crashes(before.crash_history, now);
    assert(kept.push(crash).drop_last() == kept);
}

/// Where no host runs, looking for an exited process changes nothing.
pub proof fn without_a_host_there_is_no_crash(before: SupervisorView, now: u64, child_exited: bool)
    requires
        before.session is None || !child_exited,
    ensures
        before.after_child_check(now, child_exited) == before,
{
}

/// A request for a host, outside of a crash loop, is answered by what runs: a running host is
/// named; where none runs, one is asked for, and nothing but the lifecycle state changes; where the
/// host has exited, its crash is taken on record as by any look at the process, and a new host is
/// asked for exactly unless that makes a crash loop.
pub proof fn a_request_is_answered_by_what_runs(
    before: SupervisorView,
    now: u64,
    child_exited: bool,
)
    requires
        !before.crash_loop_detected,
    ensures
        ({
            let step = before.start_step(now, child_exited);
            let after = before.after_start_request(now, child_exited);
            let found = before.after_child_check(now, true);
            &&& before.session is Some && !child_exited ==> {
                &&& step == StartStep::Running(before.session->0.port)
                &&& after == before
            }
            &&& before.session is None ==> {
                &&& step == StartStep::Spawn
                &&& after == (SupervisorView {
                    lifecycle_state: ExtHostLifecycleState::ServerStarting,
                    ..before
                })
            }
            &&& before.session is Some && child_exited && found.crash_history.len() > 3 ==> {
                &&& step == StartStep::Refused(StartRefusal::CrashLoop)
                &&& after == found
            }
            &&& before.session is Some && child_exited && found.crash_history.len() <= 3 ==> {
                &&& step == StartStep::Spawn
                &&& after == (SupervisorView {
                    lifecycle_state: ExtHostLifecycleState::ServerStarting,
                    ..found
                })
            }
        }),
{
    if before.session is Some {
        a_found_crash_goes_on_record(before, now);
    }
}

/// A request that asks for a host keeps the crash record: what was on record stays, but for crashes
/// that are five minutes old when a new one joins them.
pub proof fn a_request_keeps_the_crash_record(
    before: SupervisorView,
    now: u64,
    child_exited: bool,
)
    requires
        before.start_step(now, child_exited) == StartStep::Spawn,
    ensures
        ({
            let after = before.after_start_request(now, child_exited);
            &&& before.session is None ==> after.crash_history == before.crash_history
            &&& before.session is Some ==> {
                &&& after.crash_history.len() > 0
                &&& after.crash_history.last() == (CrashView {
                    timestamp: now,
                    session_id: before.session->0.session_id,
                })
                &&& after.crash_history.drop_last() == before.crash_history.filter(
                    |crash: CrashView| now < crash.timestamp + 300_000_000_000,
                )
            }
        }),
{
    if before.session is Some {
        a_found_crash_goes_on_record(before, now);
    }
}

/// The outcome of a spawn is taken over and changes nothing else: a host becomes the current one,
/// listens and counts as started; a failure sets the lifecycle state.
pub proof fn a_spawn_outcome_is_taken_over(
    before: SupervisorView,
    session: SessionView,
    state: ExtHostLifecycleState,
)
    ensures
        before.started(session) == (SupervisorView {
            session: Some(session),
            restart_count: before.restart_count + 1,
            lifecycle_state: ExtHostLifecycleState::ServerListening,
            ..before
        }),
        before.with_session(session) == (SupervisorView { session: Some(session), ..before }),
        before.in_state(state) == (SupervisorView { lifecycle_state: state, ..before }),
{
}

/// A restart forgets the crash loop and the crashes behind it, takes the host away and keeps the
/// counts; as long as it has only begun, the host stays.
pub proof fn a_restart_forgets_the_crash_loop_and_nothing_else(before: SupervisorView)
    ensures
        before.restart_begun() == (SupervisorView {
            crash_history: Seq::empty(),
            crash_loop_detected: false,
            degraded_at: None,
            lifecycle_state: ExtHostLifecycleState::Bootstrapping,
            ..before
        }),
        before.restarted() == (SupervisorView {
            session: None,
            crash_history: Seq::empty(),
            crash_loop_detected: false,
            degraded_at: None,
            lifecycle_state: ExtHostLifecycleState::ServerStarting,
            ..before
        }),
{
}

/// While a new supervisor is used properly, a crash loop is never beside a host, and is on record
/// exactly while more than three crashes are; none of them is uncounted.
pub proof fn a_degraded_supervisor_has_no_host(operations: Seq<Operation>)
    requires
        all_proper(SupervisorView::initial(), operations),
    ensures
        ({
            let after = after_all(SupervisorView::initial(), operations);
            &&& after.crash_loop_detected ==> after.session is None && after.degraded_at is Some
            &&& after.crash_loop_detected <==> after.crash_history.len() > 3
            &&& after.crash_history.len() <= 4
            &&& after.crash_history.len() <= after.total_crashes
        }),
{
    every_reachable_supervisor_is_well_formed(operations);
}

/// The time at which the process is looked at, where the use does so.
pub open spec fn moment(operation: Operation) -> Option<u64> {
    match operation {
        Operation::EnsureStarted { now, .. } => Some(now),
        Operation::Snapshot { now, .. } => Some(now),
        _ => None,
    }
}

/// How many crashes the uses find.
pub open spec fn crashes_found(start: SupervisorView, operations: Seq<Operation>) -> nat
    decreases operations.len(),
{
    if operations.len() == 0 {
        0
    } else {
        let earlier = operations.drop_last();
        crashes_found(start, earlier) + if finds_a_crash(
            after_all(start, earlier),
            operations.last(),
        ) {
            1nat
        } else {
            0nat
        }
    }
}

/// The use is no restart, and looks at the process, if it does, within the five minutes from `from`
/// on.
pub open spec fn is_within_five_minutes(operation: Operation, from: u64) -> bool {
    &&& !is_restart(operation)
    &&& moment(operation) is Some ==> from <= moment(operation)->0 < from + 300_000_000_000
}

spec fn since(history: Seq<CrashView>, from: u64) -> Seq<CrashView> {
    history.filter(|crash: CrashView| crash.timestamp >= from)
}

proof fn since_is_no_longer(history: Seq<CrashView>, from: u64)
    ensures
        since(history, from).len() <= history.len(),
    decreases history.len(),
{
    reveal(Seq::filter);
    if history.len() > 0 {
        since_is_no_longer(history.drop_last(), from);
    }
}

proof fn since_of_push(history: Seq<CrashView>, crash: CrashView, from: u64)
    ensures
        since(history.push(crash), from) == if crash.timestamp >= from {
            since(history, from).push(crash)
        } else {
            since(history, from)
        },
{
    reveal(Seq::filter);
    assert(history.push(crash).drop_last() == history);
}

proof fn what_is_recent_is_kept(history: Seq<CrashView>, from: u64, now: u64)
    requires
        now < from + CRASH_WINDOW_NANOS,
    ensures
        since(recent_crashes(history, now), from) == since(history, from),
    decreases history.len(),
{
    if history.len() == 0 {
        reveal(Seq::filter);
        assert(recent_crashes(history, now) == history);
    } else {
        let earlier = history.drop_last();
        let crash = history.last();
        assert(history == earlier.push(crash));
        what_is_recent_is_kept(earlier, from, now);
        filter_of_push(earlier, crash, now);
        since_of_push(earlier, crash, from);
        since_of_push(recent_crashes(earlier, now), crash, from);
    }
}

proof fn crashes_add_up(start: SupervisorView, operations: Seq<Operation>, from: u64)
    requires
        forall|i: int|
            0 <= i < operations.len() ==> is_within_five_minutes(#[trigger] operations[i], from),
    ensures
        since(after_all(start, operations).crash_history, from).len() >= crashes_found(
            start,
            operations,
        ),
        crashes_found(start, operations) > 3 ==> after_all(start, operations).crash_loop_detected,
    decreases operations.len(),
{
    if operations.len() > 0 {
        let earlier = operations.drop_last();
        let operation = operations.last();
        let before = after_all(start, earlier);
        assert forall|i: int| 0 <= i < earlier.len() implies is_within_five_minutes(
            #[trigger] earlier[i],
            from,
        ) by {
            assert(earlier[i] == operations[i]);
        }
        crashes_add_up(start, earlier, from);
        assert(operation == operations[operations.len() - 1]);
        assert(is_within_five_minutes(operation, from));
        if finds_a_crash(before, operation) {
            let now = moment(operation)->0;
            let crash = CrashView { timestamp: now, session_id: before.session->0.session_id };
            let after = operated(before, operation);
            assert(after.crash_history == recent_crashes(before.crash_history.push(crash), now));
            what_is_recent_is_kept(before.crash_history.push(crash), from, now);
            since_of_push(before.crash_history, crash, from);
            since_is_no_longer(after.crash_history, from);
        } else {
            assert(operated(before, operation).crash_history == before.crash_history);
        }
    }
}

/// More than three crashes found within five minutes make a crash loop, whatever else happens in
/// between: requests, reports, events, starts, failed starts and stops do not make them forgotten.
/// Every request that follows is refused.
pub proof fn crashes_within_five_minutes_add_up(
    start: SupervisorView,
    operations: Seq<Operation>,
    from: u64,
    now: u64,
    child_exited: bool,
)
    requires
        forall|i: int|
            0 <= i < operations.len() ==> is_within_five_minutes(#[trigger] operations[i], from),
        crashes_found(start, operations) > 3,
    ensures
        after_all(start, operations).crash_loop_detected,
        after_all(start, operations).start_step(now, child_exited) == StartStep::Refused(
            StartRefusal::Degraded,
        ),
{
    crashes_add_up(start, operations, from);
}

/// The crash record changes only by a restart or by a crash that is found.
pub proof fn only_a_crash_or_a_restart_changes_the_crash_record(
    before: SupervisorView,
    operation: Operation,
)
    requires
        !is_restart(operation),
        !finds_a_crash(before, operation),
    ensures
        operated(before, operation).crash_history == before.crash_history,
        operated(before, operation).crash_loop_detected == before.crash_loop_detected,
        operated(before, operation).degraded_at == before.degraded_at,
{
}

} // verus!
