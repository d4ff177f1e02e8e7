//! How the start of a host fails, what is said of it, and which state it leads to.

use crate::lifecycle::ExtHostLifecycleState;
use crate::port::PortProblem;
use crate::text::{concat, starts_with};
use vstd::prelude::*;
use vstd::string::*;

verus! {

/// The step at which the start of a host failed.
#[derive(Debug, Clone)]
pub enum SpawnError {
    /// No Node runtime was found; with the reason.
    NodeMissing(String),
    /// The host's script is not at this path.
    ServerScriptMissing(String),
    /// The init data could not be serialized; with the reason.
    InitDataNotSerialized(String),
    /// The search paths could not be encoded; with the reason.
    SearchPathsNotEncoded(String),
    /// The init data file could not be written; with the reason.
    InitDataNotWritten(String),
    /// The process could not be spawned; with the reason.
    SpawnFailed(String),
    /// The process has no standard output to read.
    StdoutNotCaptured,
    /// The host's port did not become known; with what the host was spawned with, and what it
    /// last wrote to its standard error.
    PortUnknown {
        problem: PortProblem,
        session_id: String,
        server_script: String,
        node_path: String,
        init_data_file: String,
        recent_stderr: String,
    },
}

/// The init data file, followed by what else a host was spawned with.
pub open spec fn spawned_with(
    init_data_file: Seq<char>,
    session_id: Seq<char>,
    server_script: Seq<char>,
    node_path: Seq<char>,
) -> Seq<char> {
    init_data_file + " session="@ + session_id + " server_js="@ + server_script + " node="@
        + node_path
}

/// The sentence that says what is wrong with the port. Where the host said nothing, it tells what
/// the host was spawned with and what it last wrote to its standard error.
pub open spec fn port_problem_text(
    problem: PortProblem,
    spawned_with: Seq<char>,
    recent_stderr: Seq<char>,
) -> Seq<char> {
    match problem {
        PortProblem::Timeout => "ERR_PORT_TIMEOUT: extension host port timeout (15s). init_data_file="@
            + spawned_with + "."@ + recent_stderr,
        PortProblem::UnexpectedType => "unexpected port message type"@,
        PortProblem::SessionMismatch => "session_id mismatch in port message"@,
        PortProblem::BadJson(detail) => "bad port JSON: "@ + detail@,
        PortProblem::NotPortMessage => "stdout line is not a port message"@,
        PortProblem::NotJson => "stdout line is not valid JSON"@,
        PortProblem::ReaderExited => "stdout reader exited without sending port. init_data_file="@
            + spawned_with + "."@ + recent_stderr,
    }
}

/// The sentence that says why the start failed.
pub open spec fn spawn_error_text(error: SpawnError) -> Seq<char> {
    match error {
        SpawnError::NodeMissing(detail) => "ERR_NODE_MISSING: "@ + detail@,
        SpawnError::ServerScriptMissing(path) => "ERR_SERVER_SCRIPT_MISSING: extension host script not found at "@
            + path@,
        SpawnError::InitDataNotSerialized(detail) => "failed to serialize init data: "@ + detail@,
        SpawnError::SearchPathsNotEncoded(detail) => "failed to encode search paths: "@ + detail@,
        SpawnError::InitDataNotWritten(detail) => "failed to write init data file: "@ + detail@,
        SpawnError::SpawnFailed(detail) => "ERR_SPAWN_FAILED: failed to spawn extension host: "@
            + detail@,
        SpawnError::StdoutNotCaptured => "failed to capture extension host stdout"@,
        SpawnError::PortUnknown {
            problem,
            session_id,
            server_script,
            node_path,
            init_data_file,
            recent_stderr,
        } => port_problem_text(
            problem,
            spawned_with(init_data_file@, session_id@, server_script@, node_path@),
            recent_stderr@,
        ),
    }
}

/// The state that a start leads to which failed with the sentence `text`: the sentence's code
/// tells it.
pub open spec fn failure_state(text: Seq<char>) -> ExtHostLifecycleState {
    if "ERR_NODE_MISSING:"@.is_prefix_of(text) {
        ExtHostLifecycleState::NodeMissing
    } else if "ERR_SERVER_SCRIPT_MISSING:"@.is_prefix_of(text) {
        ExtHostLifecycleState::ServerScriptMissing
    } else if "ERR_PORT_TIMEOUT:"@.is_prefix_of(text) {
        ExtHostLifecycleState::PortTimeout
    } else {
        ExtHostLifecycleState::ServerStartFailed
    }
}

/// The state that belongs to the step at which the start failed.
pub open spec fn step_state(error: SpawnError) -> ExtHostLifecycleState {
    match error {
        SpawnError::NodeMissing(_) => ExtHostLifecycleState::NodeMissing,
        SpawnError::ServerScriptMissing(_) => ExtHostLifecycleState::ServerScriptMissing,
        SpawnError::PortUnknown { problem: PortProblem::Timeout, .. } => {
            ExtHostLifecycleState::PortTimeout
        },
        _ => ExtHostLifecycleState::ServerStartFailed,
    }
}

impl PortProblem {
    /// Whether the sentence tells what the host last wrote to its standard error: the host told
    /// nothing else.
    pub fn wants_stderr(&self) -> (wanted: bool)
        ensures
            wanted == (self is Timeout || self is ReaderExited),
    {
        match self {
            PortProblem::Timeout | PortProblem::ReaderExited => true,
            _ => false,
        }
    }

    /// The sentence that says what is wrong, given what the host was spawned with, the init data
    /// file first, and what it last wrote to its standard error.
    pub fn message(&self, spawned_with: &str, recent_stderr: &str) -> (text: String)
        ensures
            text@ == port_problem_text(*self, spawned_with@, recent_stderr@),
    {
        match self {
            PortProblem::Timeout => {
                let mut text = concat(
                    "ERR_PORT_TIMEOUT: extension host port timeout (15s). init_data_file=",
                    spawned_with,
                );
                text.append(".");
                text.append(recent_stderr);
                text
            },
            PortProblem::UnexpectedType => "unexpected port message type".to_owned(),
            PortProblem::SessionMismatch => "session_id mismatch in port message".to_owned(),
            PortProblem::BadJson(detail) => concat("bad port JSON: ", detail.as_str()),
            PortProblem::NotPortMessage => "stdout line is not a port message".to_owned(),
            PortProblem::NotJson => "stdout line is not valid JSON".to_owned(),
            PortProblem::ReaderExited => {
                let mut text = concat(
                    "stdout reader exited without sending port. init_data_file=",
                    spawned_with,
                );
                text.append(".");
                text.append(recent_stderr);
                text
            },
        }
    }
}

impl SpawnError {
    /// The sentence that says why the start failed.
    pub fn message(&self) -> (text: String)
        ensures
            text@ == spawn_error_text(*self),
    {
        match self {
            SpawnError::NodeMissing(detail) => concat("ERR_NODE_MISSING: ", detail.as_str()),
            SpawnError::ServerScriptMissing(path) => concat(
                "ERR_SERVER_SCRIPT_MISSING: extension host script not found at ",
                path.as_str(),
            ),
            SpawnError::InitDataNotSerialized(detail) => concat(
                "failed to serialize init data: ",
                detail.as_str(),
            ),
            SpawnError::SearchPathsNotEncoded(detail) => concat(
                "failed to encode search paths: ",
                detail.as_str(),
            ),
            SpawnError::InitDataNotWritten(detail) => concat(
                "failed to write init data file: ",
                detail.as_str(),
            ),
            SpawnError::SpawnFailed(detail) => concat(
                "ERR_SPAWN_FAILED: failed to spawn extension host: ",
                detail.as_str(),
            ),
            SpawnError::StdoutNotCaptured => "failed to capture extension host stdout".to_owned(),
            SpawnError::PortUnknown {
                problem,
                session_id,
                server_script,
                node_path,
                init_data_file,
                recent_stderr,
            } => {
                let mut spawned_with = concat(init_data_file.as_str(), " session=");
                spawned_with.append(session_id.as_str());
                spawned_with.append(" server_js=");
                spawned_with.append(server_script.as_str());
                spawned_with.append(" node=");
                spawned_with.append(node_path.as_str());
                problem.message(spawned_with.as_str(), recent_stderr.as_str())
            },
        }
    }
}

proof fn agrees_with_prefix(prefix: Seq<char>, text: Seq<char>, i: int)
    requires
        prefix.is_prefix_of(text),
        0 <= i < prefix.len(),
    ensures
        text[i] == prefix[i],
{
    assert(text[i] == text.subrange(0, prefix.len() as int)[i]);
}

proof fn differs_from_prefix(prefix: Seq<char>, text: Seq<char>, i: int)
    requires
        0 <= i < prefix.len(),
        text[i] != prefix[i],
    ensures
        !prefix.is_prefix_of(text),
{
    if prefix.is_prefix_of(text) {
        agrees_with_prefix(prefix, text, i);
    }
}

/// The state that a start leads to which failed with the sentence `text`.
pub fn lifecycle_for_error(text: &str) -> (state: ExtHostLifecycleState)
    ensures
        state == failure_state(text@),
{
    if starts_with(text, "ERR_NODE_MISSING:") {
        ExtHostLifecycleState::NodeMissing
    } else if starts_with(text, "ERR_SERVER_SCRIPT_MISSING:") {
        ExtHostLifecycleState::ServerScriptMissing
    } else if starts_with(text, "ERR_SPAWN_FAILED:") {
        proof {
            reveal_strlit("ERR_SPAWN_FAILED:");
            reveal_strlit("ERR_PORT_TIMEOUT:");
            agrees_with_prefix("ERR_SPAWN_FAILED:"@, text@, 4);
            differs_from_prefix("ERR_PORT_TIMEOUT:"@, text@, 4);
        }
        ExtHostLifecycleState::ServerStartFailed
    } else if starts_with(text, "ERR_PORT_TIMEOUT:") {
        ExtHostLifecycleState::PortTimeout
    } else {
        ExtHostLifecycleState::ServerStartFailed
    }
}

/// The sentence of a failed start always leads to the state of the step that failed, whatever
/// the details in it say.
pub proof fn failed_steps_are_told_apart(error: SpawnError)
    ensures
        failure_state(spawn_error_text(error)) == step_state(error),
{
    let text = spawn_error_text(error);
    reveal_strlit("ERR_NODE_MISSING:");
    reveal_strlit("ERR_SERVER_SCRIPT_MISSING:");
    reveal_strlit("ERR_PORT_TIMEOUT:");
    reveal_strlit("ERR_NODE_MISSING: ");
    reveal_strlit("ERR_SERVER_SCRIPT_MISSING: extension host script not found at ");
    reveal_strlit("failed to serialize init data: ");
    reveal_strlit("failed to encode search paths: ");
    reveal_strlit("failed to write init data file: ");
    reveal_strlit("ERR_SPAWN_FAILED: failed to spawn extension host: ");
    reveal_strlit("failed to capture extension host stdout");
    reveal_strlit("ERR_PORT_TIMEOUT: extension host port timeout (15s). init_data_file=");
    reveal_strlit("unexpected port message type");
    reveal_strlit("session_id mismatch in port message");
    reveal_strlit("bad port JSON: ");
    reveal_strlit("stdout line is not a port message");
    reveal_strlit("stdout line is not valid JSON");
    reveal_strlit("stdout reader exited without sending port. init_data_file=");
    match error {
        SpawnError::NodeMissing(_) => {
            assert("ERR_NODE_MISSING:"@.is_prefix_of(text));
        },
        SpawnError::ServerScriptMissing(_) => {
            differs_from_prefix("ERR_NODE_MISSING:"@, text, 4);
            assert("ERR_SERVER_SCRIPT_MISSING:"@.is_prefix_of(text));
        },
        SpawnError::SpawnFailed(_) => {
            differs_from_prefix("ERR_NODE_MISSING:"@, text, 4);
            differs_from_prefix("ERR_SERVER_SCRIPT_MISSING:"@, text, 5);
            differs_from_prefix("ERR_PORT_TIMEOUT:"@, text, 4);
        },
        SpawnError::PortUnknown { problem: PortProblem::Timeout, .. } => {
            differs_from_prefix("ERR_NODE_MISSING:"@, text, 4);
            differs_from_prefix("ERR_SERVER_SCRIPT_MISSING:"@, text, 4);
            assert("ERR_PORT_TIMEOUT:"@.is_prefix_of(text));
        },
        _ => {
            differs_from_prefix("ERR_NODE_MISSING:"@, text, 0);
            differs_from_prefix("ERR_SERVER_SCRIPT_MISSING:"@, text, 0);
            differs_from_prefix("ERR_PORT_TIMEOUT:"@, text, 0);
        },
    }
}

/// `part` stands somewhere in `text`.
pub open spec fn holds(text: Seq<char>, part: Seq<char>) -> bool {
    exists|front: Seq<char>, back: Seq<char>| text == #[trigger] (front + part + back)
}

proof fn holds_at_the_end(front: Seq<char>, part: Seq<char>)
    ensures
        holds(front + part, part),
{
    assert(front + part == front + part + Seq::<char>::empty());
}

proof fn holds_in_more(front: Seq<char>, text: Seq<char>, back: Seq<char>, part: Seq<char>)
    requires
        holds(text, part),
    ensures
        holds(front + text, part),
        holds(text + back, part),
{
    let (before, after) = choose|before: Seq<char>, after: Seq<char>|
        text == #[trigger] (before + part + after);
    assert(front + text == (front + before) + part + after);
    assert(text + back == before + part + (after + back));
}

proof fn holds_what_a_host_was_spawned_with(
    init_data_file: Seq<char>,
    session_id: Seq<char>,
    server_script: Seq<char>,
    node_path: Seq<char>,
)
    ensures
        ({
            let text = spawned_with(init_data_file, session_id, server_script, node_path);
            &&& holds(text, init_data_file)
            &&& holds(text, session_id)
            &&& holds(text, server_script)
            &&& holds(text, node_path)
        }),
{
    let empty = Seq::<char>::empty();
    let to_id = init_data_file + " session="@;
    let with_id = to_id + session_id;
    let to_script = with_id + " server_js="@;
    let with_script = to_script + server_script;
    let to_node = with_script + " node="@;
    assert(holds(to_node, init_data_file) && holds(to_node, session_id)) by {
        holds_at_the_end(empty, init_data_file);
        assert(empty + init_data_file == init_data_file);
        holds_in_more(empty, init_data_file, " session="@, init_data_file);
        holds_in_more(empty, to_id, session_id, init_data_file);
        holds_at_the_end(to_id, session_id);
        holds_in_more(empty, with_id, " server_js="@, init_data_file);
        holds_in_more(empty, with_id, " server_js="@, session_id);
        holds_in_more(empty, to_script, server_script, init_data_file);
        holds_in_more(empty, to_script, server_script, session_id);
        holds_in_more(empty, with_script, " node="@, init_data_file);
        holds_in_more(empty, with_script, " node="@, session_id);
    }
    assert(holds(to_node, server_script)) by {
        holds_at_the_end(to_script, server_script);
        holds_in_more(empty, with_script, " node="@, server_script);
    }
    holds_in_more(empty, to_node, node_path, init_data_file);
    holds_in_more(empty, to_node, node_path, session_id);
    holds_in_more(empty, to_node, node_path, server_script);
    holds_at_the_end(to_node, node_path);
}

proof fn holds_in_a_sentence(
    head: Seq<char>,
    text: Seq<char>,
    recent_stderr: Seq<char>,
    part: Seq<char>,
)
    requires
        holds(text, part),
    ensures
        holds(head + text + "."@ + recent_stderr, part),
{
    holds_in_more(head, text, Seq::empty(), part);
    holds_in_more(Seq::empty(), head + text, "."@, part);
    holds_in_more(Seq::empty(), head + text + "."@, recent_stderr, part);
}

/// The sentence of a host that told no port, because it was silent for too long or ended its
/// output, tells the session, the init data file, the script, the Node runtime and what the host
/// last wrote to its standard error.
pub proof fn a_silent_host_is_diagnosed(
    problem: PortProblem,
    session_id: String,
    server_script: String,
    node_path: String,
    init_data_file: String,
    recent_stderr: String,
)
    requires
        problem is Timeout || problem is ReaderExited,
    ensures
        ({
            let text = spawn_error_text(
                SpawnError::PortUnknown {
                    problem,
                    session_id,
                    server_script,
                    node_path,
                    init_data_file,
                    recent_stderr,
                },
            );
            &&& holds(text, session_id@)
            &&& holds(text, init_data_file@)
            &&& holds(text, server_script@)
            &&& holds(text, node_path@)
            &&& holds(text, recent_stderr@)
        }),
{
    let head = if problem is Timeout {
        "ERR_PORT_TIMEOUT: extension host port timeout (15s). init_data_file="@
    } else {
        "stdout reader exited without sending port. init_data_file="@
    };
    let with = spawned_with(init_data_file@, session_id@, server_script@, node_path@);
    holds_what_a_host_was_spawned_with(
        init_data_file@,
        session_id@,
        server_script@,
        node_path@,
    );
    holds_in_a_sentence(head, with, recent_stderr@, session_id@);
    holds_in_a_sentence(head, with, recent_stderr@, init_data_file@);
    holds_in_a_sentence(head, with, recent_stderr@, server_script@);
    holds_in_a_sentence(head, with, recent_stderr@, node_path@);
    holds_at_the_end(head + with + "."@, recent_stderr@);
}

/// The code at the front of a sentence decides the state, whatever follows it.
pub proof fn the_code_decides_the_state(rest: Seq<char>)
    ensures
        failure_state("ERR_NODE_MISSING:"@ + rest) == ExtHostLifecycleState::NodeMissing,
        failure_state("ERR_SERVER_SCRIPT_MISSING:"@ + rest)
            == ExtHostLifecycleState::ServerScriptMissing,
        failure_state("ERR_SPAWN_FAILED:"@ + rest) == ExtHostLifecycleState::ServerStartFailed,
        failure_state("ERR_PORT_TIMEOUT:"@ + rest) == ExtHostLifecycleState::PortTimeout,
{
    reveal_strlit("ERR_NODE_MISSING:");
    reveal_strlit("ERR_SERVER_SCRIPT_MISSING:");
    reveal_strlit("ERR_SPAWN_FAILED:");
    reveal_strlit("ERR_PORT_TIMEOUT:");
    let node = "ERR_NODE_MISSING:"@ + rest;
    let script = "ERR_SERVER_SCRIPT_MISSING:"@ + rest;
    let spawn = "ERR_SPAWN_FAILED:"@ + rest;
    let port = "ERR_PORT_TIMEOUT:"@ + rest;
    assert("ERR_NODE_MISSING:"@.is_prefix_of(node));
    assert("ERR_SERVER_SCRIPT_MISSING:"@.is_prefix_of(script));
    differs_from_prefix("ERR_NODE_MISSING:"@, script, 4);
    differs_from_prefix("ERR_NODE_MISSING:"@, spawn, 4);
    differs_from_prefix("ERR_SERVER_SCRIPT_MISSING:"@, spawn, 5);
    differs_from_prefix("ERR_PORT_TIMEOUT:"@, spawn, 4);
    assert("ERR_PORT_TIMEOUT:"@.is_prefix_of(port));
    differs_from_prefix("ERR_NODE_MISSING:"@, port, 4);
    differs_from_prefix("ERR_SERVER_SCRIPT_MISSING:"@, port, 4);
}

/// A sentence without one of these codes leads to the state of a failed start, and no sentence
/// leads to a state that is none of a failed start.
pub proof fn without_a_code_the_start_has_just_failed(text: Seq<char>)
    ensures
        failure_state(text) == ExtHostLifecycleState::NodeMissing
            ==> "ERR_NODE_MISSING:"@.is_prefix_of(text),
        failure_state(text) == ExtHostLifecycleState::ServerScriptMissing
            ==> "ERR_SERVER_SCRIPT_MISSING:"@.is_prefix_of(text),
        failure_state(text) == ExtHostLifecycleState::PortTimeout
            ==> "ERR_PORT_TIMEOUT:"@.is_prefix_of(text),
        failure_state(text) == ExtHostLifecycleState::NodeMissing || failure_state(text)
            == ExtHostLifecycleState::ServerScriptMissing || failure_state(text)
            == ExtHostLifecycleState::PortTimeout || failure_state(text)
            == ExtHostLifecycleState::ServerStartFailed,
{
}

/// The sentence of a failed step tells the reason, or the path, whole and at its end, behind words
/// that belong to the step alone.
pub proof fn a_failed_step_tells_its_reason(detail: String)
    ensures
        spawn_error_text(SpawnError::NodeMissing(detail)) == "ERR_NODE_MISSING: "@ + detail@,
        spawn_error_text(SpawnError::ServerScriptMissing(detail))
            == "ERR_SERVER_SCRIPT_MISSING: extension host script not found at "@ + detail@,
        spawn_error_text(SpawnError::InitDataNotSerialized(detail))
            == "failed to serialize init data: "@ + detail@,
        spawn_error_text(SpawnError::SearchPathsNotEncoded(detail))
            == "failed to encode search paths: "@ + detail@,
        spawn_error_text(SpawnError::InitDataNotWritten(detail))
            == "failed to write init data file: "@ + detail@,
        spawn_error_text(SpawnError::SpawnFailed(detail))
            == "ERR_SPAWN_FAILED: failed to spawn extension host: "@ + detail@,
        spawn_error_text(SpawnError::StdoutNotCaptured)
            == "failed to capture extension host stdout"@,
{
}

/// The sentence about the port tells, for a silent host, what it was spawned with and what it last
/// wrote; for a host that told something else, only what is wrong with that.
pub proof fn a_port_problem_tells_what_is_wrong(
    problem: PortProblem,
    with: Seq<char>,
    recent_stderr: Seq<char>,
)
    ensures
        ({
            let text = port_problem_text(problem, with, recent_stderr);
            &&& problem is Timeout ==> text
                == "ERR_PORT_TIMEOUT: extension host port timeout (15s). init_data_file="@ + with
                + "."@ + recent_stderr
            &&& problem is ReaderExited ==> text
                == "stdout reader exited without sending port. init_data_file="@ + with + "."@
                + recent_stderr
            &&& problem is UnexpectedType ==> text == "unexpected port message type"@
            &&& problem is SessionMismatch ==> text == "session_id mismatch in port message"@
            &&& problem is BadJson ==> text == "bad port JSON: "@ + problem->BadJson_0@
            &&& problem is NotPortMessage ==> text == "stdout line is not a port message"@
            &&& problem is NotJson ==> text == "stdout line is not valid JSON"@
        }),
{
}

/// A start that failed for want of a port is told as its port problem is, with the init data file,
/// the session, the script and the runtime in this order.
pub proof fn a_start_without_a_port_tells_the_port_problem(
    problem: PortProblem,
    session_id: String,
    server_script: String,
    node_path: String,
    init_data_file: String,
    recent_stderr: String,
)
    ensures
        spawn_error_text(
            SpawnError::PortUnknown {
                problem,
                session_id,
                server_script,
                node_path,
                init_data_file,
                recent_stderr,
            },
        ) == port_problem_text(
            problem,
            init_data_file@ + " session="@ + session_id@ + " server_js="@ + server_script@
                + " node="@ + node_path@,
            recent_stderr@,
        ),
{
}

} // verus!
