//! The way from nothing to a listening host, one step after the other.
//!
//! The caller does the outside work of a step, hands in what came of it, and gets the value that
//! the next step starts from, or the error with which the start ends. A value of one of these
//! types is thus proof that all steps before it went well.

use crate::failure::SpawnError;
use crate::json::{encode_strings, json_array};
use crate::port::{PortProblem, PortReader};
use crate::session::{NodeRuntimeInfo, StartedSession};
use crate::text::{concat, texts};
use vstd::prelude::*;
use vstd::string::*;

verus! {

/// A Node runtime was found.
pub struct ResolvedNode {
    runtime: NodeRuntimeInfo,
}

/// The host's script was found.
pub struct LocatedScript {
    runtime: NodeRuntimeInfo,
    server_script: String,
}

/// All that a host is launched with.
struct LaunchData {
    runtime: NodeRuntimeInfo,
    server_script: String,
    session_id: String,
    init_data_json: String,
    search_paths_json: String,
}

/// All that a host is launched with was put together.
pub struct PreparedLaunch {
    data: LaunchData,
}

/// The init data file was written.
pub struct WrittenLaunch {
    data: LaunchData,
}

/// The process was spawned.
pub struct SpawnedHost {
    data: LaunchData,
}

/// The process's standard output can be read.
pub struct ListeningHost {
    data: LaunchData,
    spawned_at: u64,
}

/// All that a host is launched with.
#[verifier::ext_equal]
pub struct LaunchView {
    pub runtime: NodeRuntimeInfo,
    pub server_script: Seq<char>,
    pub session_id: Seq<char>,
    pub init_data_json: Seq<char>,
    pub search_paths_json: Seq<char>,
}

/// A path that only the caller knows in full.
#[derive(Debug, Clone, Copy, PartialEq, Eq, Structural)]
pub enum LaunchPath {
    ServerScript,
    UserExtensionsDir,
    BuiltinExtensionsDir,
    GlobalStorageDir,
    InitDataFile,
}

/// An argument, or the value of an environment variable.
#[derive(Debug, Clone)]
pub enum LaunchValue {
    Text(String),
    Path(LaunchPath),
}

/// The command that spawns a host.
#[derive(Debug, Clone)]
pub struct LaunchCommand {
    pub program: String,
    pub args: Vec<LaunchValue>,
    pub env: Vec<(String, LaunchValue)>,
}

/// `LaunchValue` with its text as characters.
#[verifier::ext_equal]
pub enum LaunchValueView {
    Text(Seq<char>),
    Path(LaunchPath),
}

/// `LaunchCommand` with its texts as characters.
#[verifier::ext_equal]
pub struct LaunchCommandView {
    pub program: Seq<char>,
    pub args: Seq<LaunchValueView>,
    pub env: Seq<(Seq<char>, LaunchValueView)>,
}

impl View for LaunchValue {
    type V = LaunchValueView;

    open spec fn view(&self) -> LaunchValueView {
        match self {
            LaunchValue::Text(text) => LaunchValueView::Text(text@),
            LaunchValue::Path(path) => LaunchValueView::Path(*path),
        }
    }
}

impl View for LaunchCommand {
    type V = LaunchCommandView;

    open spec fn view(&self) -> LaunchCommandView {
        LaunchCommandView {
            program: self.program@,
            args: self.args@.map_values(|value: LaunchValue| value@),
            env: self.env@.map_values(|entry: (String, LaunchValue)| (entry.0@, entry.1@)),
        }
    }
}

impl View for LaunchData {
    type V = LaunchView;

    closed spec fn view(&self) -> LaunchView {
        LaunchView {
            runtime: self.runtime,
            server_script: self.server_script@,
            session_id: self.session_id@,
            init_data_json: self.init_data_json@,
            search_paths_json: self.search_paths_json@,
        }
    }
}

impl View for PreparedLaunch {
    type V = LaunchView;

    closed spec fn view(&self) -> LaunchView {
        self.data@
    }
}

impl View for WrittenLaunch {
    type V = LaunchView;

    closed spec fn view(&self) -> LaunchView {
        self.data@
    }
}

impl View for SpawnedHost {
    type V = LaunchView;

    closed spec fn view(&self) -> LaunchView {
        self.data@
    }
}

impl View for ListeningHost {
    type V = LaunchView;

    closed spec fn view(&self) -> LaunchView {
        self.data@
    }
}

/// A lower-case hexadecimal digit.
pub open spec fn hex_digit(c: char) -> bool {
    '0' <= c <= '9' || 'a' <= c <= 'f'
}

/// The text of a random (version 4) UUID: hexadecimal digits in five groups, with the version
/// and the variant in their places.
pub open spec fn random_uuid(id: Seq<char>) -> bool {
    &&& id.len() == 36
    &&& id[14] == '4'
    &&& id[19] == '8' || id[19] == '9' || id[19] == 'a' || id[19] == 'b'
    &&& forall|i: int|
        0 <= i < 36 ==> if i == 8 || i == 13 || i == 18 || i == 23 {
            #[trigger] id[i] == '-'
        } else {
            hex_digit(id[i])
        }
}

/// The name of the file that tells the host `session_id` its init data.
pub open spec fn init_data_file(session_id: Seq<char>) -> Seq<char> {
    "sidex-init-"@ + session_id + ".json"@
}

/// The command that spawns the host.
pub open spec fn launch_command(launch: LaunchView) -> LaunchCommandView {
    LaunchCommandView {
        program: launch.runtime.path@,
        args: seq![
            LaunchValueView::Text("--max-old-space-size=3072"@),
            LaunchValueView::Path(LaunchPath::ServerScript),
        ],
        env: seq![
            ("SIDEX_EXTENSIONS_DIR"@, LaunchValueView::Path(LaunchPath::UserExtensionsDir)),
            (
                "SIDEX_BUILTIN_EXTENSIONS_DIR"@,
                LaunchValueView::Path(LaunchPath::BuiltinExtensionsDir),
            ),
            ("SIDEX_GLOBAL_STORAGE_DIR"@, LaunchValueView::Path(LaunchPath::GlobalStorageDir)),
            ("SIDEX_EXTENSION_SEARCH_PATHS"@, LaunchValueView::Text(launch.search_paths_json)),
            ("SIDEX_INIT_DATA_FILE"@, LaunchValueView::Path(LaunchPath::InitDataFile)),
            ("SIDEX_SESSION_ID"@, LaunchValueView::Text(launch.session_id)),
            ("NODE_ENV"@, LaunchValueView::Text("production"@)),
        ],
    }
}

/// `value` is this text.
pub open spec fn is_text(value: LaunchValue, text: Seq<char>) -> bool {
    value is Text && value->Text_0@ == text
}

/// Calls `uuid::Uuid::new_v4` and writes the result with its `Display`. Claimed: the text is that
/// of a random UUID. Which one is left to chance. The call panics where the operating system has
/// no random bytes to give.
#[verifier::external_body]
fn new_session_id() -> (id: String)
    ensures
        random_uuid(id@),
{
    uuid::Uuid::new_v4().to_string()
}

impl ResolvedNode {
    /// The runtime that was found.
    pub closed spec fn runtime(self) -> NodeRuntimeInfo {
        self.runtime
    }

    /// The search for a Node runtime has ended with `found`.
    pub fn resolve(found: Result<NodeRuntimeInfo, String>) -> (r: Result<Self, SpawnError>)
        ensures
            match found {
                Ok(runtime) => r is Ok && r->Ok_0.runtime() == runtime,
                Err(detail) => r == Err::<Self, SpawnError>(SpawnError::NodeMissing(detail)),
            },
    {
        match found {
            Ok(runtime) => Ok(ResolvedNode { runtime }),
            Err(detail) => Err(SpawnError::NodeMissing(detail)),
        }
    }

    /// The host's script was looked for at the path that is displayed as `server_script`.
    pub fn locate_script(self, server_script: String, found: bool) -> (r: Result<
        LocatedScript,
        SpawnError,
    >)
        ensures
            if found {
                &&& r is Ok
                &&& r->Ok_0.runtime() == self.runtime()
                &&& r->Ok_0.server_script() == server_script@
            } else {
                r == Err::<LocatedScript, SpawnError>(
                    SpawnError::ServerScriptMissing(server_script),
                )
            },
    {
        if found {
            Ok(LocatedScript { runtime: self.runtime, server_script })
        } else {
            Err(SpawnError::ServerScriptMissing(server_script))
        }
    }
}

impl LocatedScript {
    /// The runtime that was found.
    pub closed spec fn runtime(self) -> NodeRuntimeInfo {
        self.runtime
    }

    /// The path at which the script was found, as it is displayed.
    pub closed spec fn server_script(self) -> Seq<char> {
        self.server_script@
    }

    /// Puts together what the host is launched with, under the given session id. `init_data` is
    /// the init data as JSON and `search_paths` the search paths as JSON, or the reason why there
    /// is none.
    pub fn assemble(
        self,
        session_id: String,
        init_data: Result<String, String>,
        search_paths: Result<String, String>,
    ) -> (r: Result<PreparedLaunch, SpawnError>)
        ensures
            match (init_data, search_paths) {
                (Err(detail), _) => r == Err::<PreparedLaunch, SpawnError>(
                    SpawnError::InitDataNotSerialized(detail),
                ),
                (Ok(_), Err(detail)) => r == Err::<PreparedLaunch, SpawnError>(
                    SpawnError::SearchPathsNotEncoded(detail),
                ),
                (Ok(init_data), Ok(search_paths)) => r is Ok && r->Ok_0@ == (LaunchView {
                    runtime: self.runtime(),
                    server_script: self.server_script(),
                    session_id: session_id@,
                    init_data_json: init_data@,
                    search_paths_json: search_paths@,
                }),
            },
    {
        let init_data_json = match init_data {
            Ok(text) => text,
            Err(detail) => {
                return Err(SpawnError::InitDataNotSerialized(detail));
            },
        };
        let search_paths_json = match search_paths {
            Ok(text) => text,
            Err(detail) => {
                return Err(SpawnError::SearchPathsNotEncoded(detail));
            },
        };
        Ok(
            PreparedLaunch {
                data: LaunchData {
                    runtime: self.runtime,
                    server_script: self.server_script,
                    session_id,
                    init_data_json,
                    search_paths_json,
                },
            },
        )
    }

    /// Puts together what the host is launched with, under a new session id. `init_data` is the
    /// init data as JSON, or the reason why there is none.
    pub fn prepare(self, init_data: Result<String, String>, search_paths: &Vec<String>) -> (r:
        Result<PreparedLaunch, SpawnError>)
        ensures
            match init_data {
                Err(detail) => r == Err::<PreparedLaunch, SpawnError>(
                    SpawnError::InitDataNotSerialized(detail),
                ),
                Ok(init_data) => {
                    &&& r is Ok
                    &&& random_uuid(r->Ok_0@.session_id)
                    &&& r->Ok_0@ == (LaunchView {
                        runtime: self.runtime(),
                        server_script: self.server_script(),
                        session_id: r->Ok_0@.session_id,
                        init_data_json: init_data@,
                        search_paths_json: json_array(texts(search_paths@)),
                    })
                },
            },
    {
        let session_id = new_session_id();
        let encoded = encode_strings(search_paths);
        self.assemble(session_id, init_data, encoded)
    }
}

impl PreparedLaunch {
    /// The name of the init data file.
    pub fn init_data_file_name(&self) -> (name: String)
        ensures
            name@ == init_data_file(self@.session_id),
            name@ == "sidex-init-"@ + self@.session_id + ".json"@,
    {
        let mut name = concat("sidex-init-", self.data.session_id.as_str());
        name.append(".json");
        name
    }

    /// What the init data file is to hold.
    pub fn init_data_json(&self) -> (json: String)
        ensures
            json@ == self@.init_data_json,
    {
        self.data.init_data_json.clone()
    }

    /// The session id under which the host is launched.
    pub fn session_id(&self) -> (id: String)
        ensures
            id@ == self@.session_id,
    {
        self.data.session_id.clone()
    }

    /// Writing the init data file has ended with `written`.
    pub fn init_data_written(self, written: Result<(), String>) -> (r: Result<
        WrittenLaunch,
        SpawnError,
    >)
        ensures
            match written {
                Ok(_) => r is Ok && r->Ok_0@ == self@,
                Err(detail) => r == Err::<WrittenLaunch, SpawnError>(
                    SpawnError::InitDataNotWritten(detail),
                ),
            },
    {
        match written {
            Ok(_) => Ok(WrittenLaunch { data: self.data }),
            Err(detail) => Err(SpawnError::InitDataNotWritten(detail)),
        }
    }
}

fn text_entry(name: &str, value: &str) -> (entry: (String, LaunchValue))
    ensures
        entry.0@ == name@,
        entry.1@ == LaunchValueView::Text(value@),
        is_text(entry.1, value@),
{
    (name.to_owned(), LaunchValue::Text(value.to_owned()))
}

fn path_entry(name: &str, path: LaunchPath) -> (entry: (String, LaunchValue))
    ensures
        entry.0@ == name@,
        entry.1@ == LaunchValueView::Path(path),
        entry.1 == LaunchValue::Path(path),
{
    (name.to_owned(), LaunchValue::Path(path))
}

impl WrittenLaunch {
    /// The command that spawns the host.
    pub fn command(&self) -> (command: LaunchCommand)
        ensures
            command@ == launch_command(self@),
            command.program@ == self@.runtime.path@,
            command.args@.len() == 2,
            is_text(command.args@[0], "--max-old-space-size=3072"@),
            command.args@[1] == LaunchValue::Path(LaunchPath::ServerScript),
            command.env@.len() == 7,
            command.env@[0].0@ == "SIDEX_EXTENSIONS_DIR"@,
            command.env@[0].1 == LaunchValue::Path(LaunchPath::UserExtensionsDir),
            command.env@[1].0@ == "SIDEX_BUILTIN_EXTENSIONS_DIR"@,
            command.env@[1].1 == LaunchValue::Path(LaunchPath::BuiltinExtensionsDir),
            command.env@[2].0@ == "SIDEX_GLOBAL_STORAGE_DIR"@,
            command.env@[2].1 == LaunchValue::Path(LaunchPath::GlobalStorageDir),
            command.env@[3].0@ == "SIDEX_EXTENSION_SEARCH_PATHS"@,
            is_text(command.env@[3].1, self@.search_paths_json),
            command.env@[4].0@ == "SIDEX_INIT_DATA_FILE"@,
            command.env@[4].1 == LaunchValue::Path(LaunchPath::InitDataFile),
            command.env@[5].0@ == "SIDEX_SESSION_ID"@,
            is_text(command.env@[5].1, self@.session_id),
            command.env@[6].0@ == "NODE_ENV"@,
            is_text(command.env@[6].1, "production"@),
    {
        let mut args: Vec<LaunchValue> = Vec::new();
        args.push(LaunchValue::Text("--max-old-space-size=3072".to_owned()));
        args.push(LaunchValue::Path(LaunchPath::ServerScript));
        let mut env: Vec<(String, LaunchValue)> = Vec::new();
        env.push(path_entry("SIDEX_EXTENSIONS_DIR", LaunchPath::UserExtensionsDir));
        env.push(path_entry("SIDEX_BUILTIN_EXTENSIONS_DIR", LaunchPath::BuiltinExtensionsDir));
        env.push(path_entry("SIDEX_GLOBAL_STORAGE_DIR", LaunchPath::GlobalStorageDir));
        env.push(
            text_entry("SIDEX_EXTENSION_SEARCH_PATHS", self.data.search_paths_json.as_str()),
        );
        env.push(path_entry("SIDEX_INIT_DATA_FILE", LaunchPath::InitDataFile));
        env.push(text_entry("SIDEX_SESSION_ID", self.data.session_id.as_str()));
        env.push(text_entry("NODE_ENV", "production"));
        let command = LaunchCommand { program: self.data.runtime.path.clone(), args, env };
        assert(command@.args == launch_command(self@).args);
        assert(command@.env == launch_command(self@).env);
        command
    }

    /// Spawning the process has ended with `spawned`.
    pub fn process_spawned(self, spawned: Result<(), String>) -> (r: Result<
        SpawnedHost,
        SpawnError,
    >)
        ensures
            match spawned {
                Ok(_) => r is Ok && r->Ok_0@ == self@,
                Err(detail) => r == Err::<SpawnedHost, SpawnError>(SpawnError::SpawnFailed(detail)),
            },
    {
        match spawned {
            Ok(_) => Ok(SpawnedHost { data: self.data }),
            Err(detail) => Err(SpawnError::SpawnFailed(detail)),
        }
    }
}

impl SpawnedHost {
    /// The process's standard output could be had, or not. From the time `now` on the host has to
    /// tell its port.
    pub fn stdout_captured(self, captured: bool, now: u64) -> (r: Result<
        ListeningHost,
        SpawnError,
    >)
        ensures
            if captured {
                r is Ok && r->Ok_0@ == self@ && r->Ok_0.spawned_at() == now
            } else {
                r == Err::<ListeningHost, SpawnError>(SpawnError::StdoutNotCaptured)
            },
    {
        if captured {
            Ok(ListeningHost { data: self.data, spawned_at: now })
        } else {
            Err(SpawnError::StdoutNotCaptured)
        }
    }
}

impl ListeningHost {
    /// The time from which on the host has to tell its port.
    pub closed spec fn spawned_at(self) -> u64 {
        self.spawned_at
    }

    /// Waits for the line in which this host tells its port.
    pub fn port_reader(&self) -> (reader: PortReader)
        ensures
            reader@.session_id == self@.session_id,
            reader@.started_at == self.spawned_at(),
    {
        PortReader::new(self.data.session_id.clone(), self.spawned_at)
    }

    /// Waiting for the port has ended with `port`. `init_data_file` is the path of the init data
    /// file, as it is displayed, and `recent_stderr` what the host last wrote to its standard
    /// error.
    pub fn port_known(
        self,
        port: Result<u16, PortProblem>,
        init_data_file: String,
        recent_stderr: String,
    ) -> (r: Result<StartedSession, SpawnError>)
        ensures
            match port {
                Ok(port) => {
                    &&& r is Ok
                    &&& r->Ok_0.port == port
                    &&& r->Ok_0.session_id@ == self@.session_id
                    &&& r->Ok_0.node_runtime == self@.runtime
                    &&& r->Ok_0.server_script_path@ == self@.server_script
                },
                Err(problem) => {
                    &&& r is Err
                    &&& r->Err_0 matches SpawnError::PortUnknown {
                        problem: told,
                        session_id,
                        server_script,
                        node_path,
                        init_data_file: file,
                        recent_stderr: stderr,
                    }
                    &&& told == problem
                    &&& session_id@ == self@.session_id
                    &&& server_script@ == self@.server_script
                    &&& node_path == self@.runtime.path
                    &&& file == init_data_file
                    &&& stderr == recent_stderr
                },
            },
    {
        match port {
            Ok(port) => Ok(
                StartedSession {
                    port,
                    session_id: self.data.session_id,
                    node_runtime: self.data.runtime,
                    server_script_path: self.data.server_script,
                },
            ),
            Err(problem) => Err(
                SpawnError::PortUnknown {
                    problem,
                    session_id: self.data.session_id,
                    server_script: self.data.server_script,
                    node_path: self.data.runtime.path,
                    init_data_file,
                    recent_stderr,
                },
            ),
        }
    }
}

/// The host is told the session id by which its port message, and later its events, are matched,
/// and no variable is set twice.
pub proof fn the_host_is_told_its_session_id(launch: LaunchView)
    ensures
        launch_command(launch).env.contains(
            ("SIDEX_SESSION_ID"@, LaunchValueView::Text(launch.session_id)),
        ),
        forall|i: int, j: int|
            0 <= i < j < launch_command(launch).env.len() ==> launch_command(launch).env[i].0
                != launch_command(launch).env[j].0,
{
    reveal_strlit("SIDEX_EXTENSIONS_DIR");
    reveal_strlit("SIDEX_BUILTIN_EXTENSIONS_DIR");
    reveal_strlit("SIDEX_GLOBAL_STORAGE_DIR");
    reveal_strlit("SIDEX_EXTENSION_SEARCH_PATHS");
    reveal_strlit("SIDEX_INIT_DATA_FILE");
    reveal_strlit("SIDEX_SESSION_ID");
    reveal_strlit("NODE_ENV");
    let env = launch_command(launch).env;
    assert(env[5] == ("SIDEX_SESSION_ID"@, LaunchValueView::Text(launch.session_id)));
    // Names of equal length differ in the character after `SIDEX_`.
    assert forall|i: int, j: int| 0 <= i < j < env.len() implies env[i].0 != env[j].0 by {
        assert(env[i].0.len() != env[j].0.len() || env[i].0[6] != env[j].0[6]);
    }
}

/// The environment sets the variable, and to this value.
pub open spec fn sets(
    command: LaunchCommandView,
    name: Seq<char>,
    value: LaunchValueView,
) -> bool {
    command.env.contains((name, value))
}

/// Whatever a host is launched with, the program is the Node runtime that was found, by its path;
/// it gets the heap limit and the script, and nothing else; each variable of the environment has
/// its own value, and there are no others.
pub proof fn the_command_spawns_the_host_that_was_prepared(launch: LaunchView)
    ensures
        ({
            let command = launch_command(launch);
            &&& command.program == launch.runtime.path@
            &&& command.args.len() == 2
            &&& command.args[0] == LaunchValueView::Text("--max-old-space-size=3072"@)
            &&& command.args[1] == LaunchValueView::Path(LaunchPath::ServerScript)
            &&& command.env.len() == 7
            &&& sets(
                command,
                "SIDEX_EXTENSIONS_DIR"@,
                LaunchValueView::Path(LaunchPath::UserExtensionsDir),
            )
            &&& sets(
                command,
                "SIDEX_BUILTIN_EXTENSIONS_DIR"@,
                LaunchValueView::Path(LaunchPath::BuiltinExtensionsDir),
            )
            &&& sets(
                command,
                "SIDEX_GLOBAL_STORAGE_DIR"@,
                LaunchValueView::Path(LaunchPath::GlobalStorageDir),
            )
            &&& sets(
                command,
                "SIDEX_EXTENSION_SEARCH_PATHS"@,
                LaunchValueView::Text(launch.search_paths_json),
            )
            &&& sets(
                command,
                "SIDEX_INIT_DATA_FILE"@,
                LaunchValueView::Path(LaunchPath::InitDataFile),
            )
            &&& sets(command, "SIDEX_SESSION_ID"@, LaunchValueView::Text(launch.session_id))
            &&& sets(command, "NODE_ENV"@, LaunchValueView::Text("production"@))
        }),
{
    let env = launch_command(launch).env;
    assert(env[0].0 == "SIDEX_EXTENSIONS_DIR"@);
    assert(env[1].0 == "SIDEX_BUILTIN_EXTENSIONS_DIR"@);
    assert(env[2].0 == "SIDEX_GLOBAL_STORAGE_DIR"@);
    assert(env[3].0 == "SIDEX_EXTENSION_SEARCH_PATHS"@);
    assert(env[4].0 == "SIDEX_INIT_DATA_FILE"@);
    assert(env[5].0 == "SIDEX_SESSION_ID"@);
    assert(env[6].0 == "NODE_ENV"@);
}

/// Launches that differ in nothing but how the runtime was found have the same command.
pub proof fn the_command_does_not_depend_on_how_node_was_found(a: LaunchView, b: LaunchView)
    requires
        a.runtime.path@ == b.runtime.path@,
        a.session_id == b.session_id,
        a.search_paths_json == b.search_paths_json,
    ensures
        launch_command(a) == launch_command(b),
{
}

/// What is seen of a command is the command: its program, its arguments and its environment.
pub proof fn a_command_is_seen_as_it_is(command: LaunchCommand)
    ensures
        command@.program == command.program@,
        command@.args.len() == command.args@.len(),
        forall|i: int|
            0 <= i < command.args@.len() ==> #[trigger] command@.args[i] == command.args@[i]@,
        command@.env.len() == command.env@.len(),
        forall|i: int|
            0 <= i < command.env@.len() ==> (#[trigger] command@.env[i]).0 == command.env@[i].0@
                && command@.env[i].1 == command.env@[i].1@,
{
}

/// What is seen of a value is the value.
pub proof fn a_value_is_seen_as_it_is(value: LaunchValue, text: Seq<char>, path: LaunchPath)
    ensures
        value@ == LaunchValueView::Text(text) <==> is_text(value, text),
        value@ == LaunchValueView::Path(path) <==> value == LaunchValue::Path(path),
{
}

/// The init data file bears the session id, so that no two sessions share one.
pub proof fn each_session_has_its_own_init_data_file(a: Seq<char>, b: Seq<char>)
    ensures
        init_data_file(a) == "sidex-init-"@ + a + ".json"@,
        init_data_file(a) == init_data_file(b) ==> a == b,
{
    let head = "sidex-init-"@.len() as int;
    let tail = ".json"@.len() as int;
    let x = init_data_file(a);
    let y = init_data_file(b);
    assert(x.subrange(head, x.len() - tail) == a);
    assert(y.subrange(head, y.len() - tail) == b);
}

/// A random UUID is written in 36 characters: dashes after the groups, the version and the variant
/// in their places, and digits elsewhere. It is thus never taken for a missing session id.
pub proof fn a_random_uuid_is_a_name(id: Seq<char>)
    requires
        random_uuid(id),
    ensures
        id.len() == 36,
        id[8] == '-' && id[13] == '-' && id[18] == '-' && id[23] == '-',
        id[14] == '4',
        '8' <= id[19] <= '9' || 'a' <= id[19] <= 'b',
        forall|i: int|
            0 <= i < 36 && i != 8 && i != 13 && i != 18 && i != 23 ==> '0' <= #[trigger] id[i]
                <= '9' || 'a' <= id[i] <= 'f',
{
}

} // verus!
