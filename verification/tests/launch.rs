use ext_host::failure::{lifecycle_for_error, SpawnError};
use ext_host::launch::{LaunchPath, LaunchValue, LocatedScript, PreparedLaunch, ResolvedNode};
use ext_host::lifecycle::ExtHostLifecycleState;
use ext_host::paths::normalize_for_node;
use ext_host::port::{PortMessage, PortProblem, PortStep};
use ext_host::session::NodeRuntimeInfo;

fn runtime() -> NodeRuntimeInfo {
    NodeRuntimeInfo {
        path: "/opt/node".to_string(),
        version: None,
        source: "bundled".to_string(),
        bundled: true,
    }
}

fn script() -> LocatedScript {
    let node = ResolvedNode::resolve(Ok(runtime())).ok().unwrap();
    node.locate_script("/app/server.cjs".to_string(), true).ok().unwrap()
}

fn prepared(session_id: &str) -> PreparedLaunch {
    script()
        .assemble(session_id.to_string(), Ok("{\"x\":1}".to_string()), Ok("[\"/e\"]".to_string()))
        .ok()
        .unwrap()
}

fn text(value: &LaunchValue) -> String {
    match value {
        LaunchValue::Text(text) => text.clone(),
        LaunchValue::Path(path) => format!("<{path:?}>"),
    }
}

#[test]
fn a_missing_node_ends_the_start() {
    let error = ResolvedNode::resolve(Err("not on PATH".to_string())).err().unwrap();
    assert_eq!(error.message(), "ERR_NODE_MISSING: not on PATH");
    assert_eq!(lifecycle_for_error(&error.message()), ExtHostLifecycleState::NodeMissing);
}

#[test]
fn a_missing_script_ends_the_start() {
    let node = ResolvedNode::resolve(Ok(runtime())).ok().unwrap();
    let error = node.locate_script("/app/server.cjs".to_string(), false).err().unwrap();
    assert_eq!(
        error.message(),
        "ERR_SERVER_SCRIPT_MISSING: extension host script not found at /app/server.cjs"
    );
    assert_eq!(lifecycle_for_error(&error.message()), ExtHostLifecycleState::ServerScriptMissing);
}

#[test]
fn missing_init_data_or_search_paths_end_the_start() {
    let id = "id".to_string();
    let error = script()
        .assemble(id.clone(), Err("a".to_string()), Err("b".to_string()))
        .err()
        .unwrap();
    assert_eq!(error.message(), "failed to serialize init data: a");
    let error = script()
        .assemble(id, Ok("{}".to_string()), Err("b".to_string()))
        .err()
        .unwrap();
    assert_eq!(error.message(), "failed to encode search paths: b");
    let error = script().prepare(Err("c".to_string()), &Vec::new()).err().unwrap();
    assert_eq!(error.message(), "failed to serialize init data: c");
    assert_eq!(lifecycle_for_error(&error.message()), ExtHostLifecycleState::ServerStartFailed);
}

#[test]
fn each_launch_has_a_session_id_of_its_own() {
    let paths = vec!["/one".to_string(), "/two".to_string()];
    let one = script().prepare(Ok("{}".to_string()), &paths).ok().unwrap();
    let two = script().prepare(Ok("{}".to_string()), &paths).ok().unwrap();
    assert_ne!(one.session_id(), two.session_id());
    let id: Vec<char> = one.session_id().chars().collect();
    assert_eq!(id.len(), 36);
    for (i, c) in id.iter().enumerate() {
        match i {
            8 | 13 | 18 | 23 => assert_eq!(*c, '-'),
            14 => assert_eq!(*c, '4'),
            19 => assert!("89ab".contains(*c)),
            _ => assert!("0123456789abcdef".contains(*c)),
        }
    }
    assert_eq!(
        one.init_data_file_name(),
        format!("sidex-init-{}.json", one.session_id())
    );
    let command = one.init_data_written(Ok(())).ok().unwrap().command();
    assert_eq!(text(&command.env[3].1), "[\"/one\",\"/two\"]");
}

#[test]
fn the_command_is_complete() {
    let launch = prepared("s-1");
    assert_eq!(launch.init_data_file_name(), "sidex-init-s-1.json");
    assert_eq!(launch.init_data_json(), "{\"x\":1}");
    let command = launch.init_data_written(Ok(())).ok().unwrap().command();
    assert_eq!(command.program, "/opt/node");
    let args: Vec<String> = command.args.iter().map(text).collect();
    assert_eq!(args, vec!["--max-old-space-size=3072", "<ServerScript>"]);
    let env: Vec<(String, String)> =
        command.env.iter().map(|(name, value)| (name.clone(), text(value))).collect();
    let expected = [
        ("SIDEX_EXTENSIONS_DIR", "<UserExtensionsDir>"),
        ("SIDEX_BUILTIN_EXTENSIONS_DIR", "<BuiltinExtensionsDir>"),
        ("SIDEX_GLOBAL_STORAGE_DIR", "<GlobalStorageDir>"),
        ("SIDEX_EXTENSION_SEARCH_PATHS", "[\"/e\"]"),
        ("SIDEX_INIT_DATA_FILE", "<InitDataFile>"),
        ("SIDEX_SESSION_ID", "s-1"),
        ("NODE_ENV", "production"),
    ];
    assert_eq!(env.len(), expected.len());
    for (entry, (name, value)) in env.iter().zip(expected) {
        assert_eq!(entry.0, name);
        assert_eq!(entry.1, value);
    }
    assert_ne!(LaunchPath::ServerScript, LaunchPath::InitDataFile);
}

#[test]
fn a_failed_write_or_spawn_ends_the_start() {
    let error = prepared("s").init_data_written(Err("disk full".to_string())).err().unwrap();
    assert_eq!(error.message(), "failed to write init data file: disk full");
    let launch = prepared("s").init_data_written(Ok(())).ok().unwrap();
    let error = launch.process_spawned(Err("denied".to_string())).err().unwrap();
    assert_eq!(error.message(), "ERR_SPAWN_FAILED: failed to spawn extension host: denied");
    assert_eq!(lifecycle_for_error(&error.message()), ExtHostLifecycleState::ServerStartFailed);
}

#[test]
fn a_process_without_output_ends_the_start() {
    let launch = prepared("s").init_data_written(Ok(())).ok().unwrap();
    let host = launch.process_spawned(Ok(())).ok().unwrap();
    let error = host.stdout_captured(false, 0).err().unwrap();
    assert_eq!(error.message(), "failed to capture extension host stdout");
}

#[test]
fn a_host_that_tells_its_port_is_started() {
    let launch = prepared("s-9").init_data_written(Ok(())).ok().unwrap();
    let host = launch.process_spawned(Ok(())).ok().unwrap();
    let host = host.stdout_captured(true, 40).ok().unwrap();
    let reader = host.port_reader();
    let message = PortMessage {
        msg_type: "sidex:server-port".to_string(),
        session_id: "s-9".to_string(),
        port: 4242,
    };
    let port = match reader.judge(Ok(message)) {
        PortStep::Accepted { port, .. } => port,
        other => panic!("{other:?}"),
    };
    assert!(matches!(reader.check_time(15_000_000_040), PortStep::Wait));
    assert!(matches!(
        reader.check_time(15_000_000_041),
        PortStep::Failed(PortProblem::Timeout)
    ));
    let started = host.port_known(Ok(port), String::new(), String::new()).ok().unwrap();
    assert_eq!(started.port, 4242);
    assert_eq!(started.session_id, "s-9");
    assert_eq!(started.node_runtime.path, "/opt/node");
    assert_eq!(started.server_script_path, "/app/server.cjs");
}

#[test]
fn a_host_without_a_port_is_described() {
    let launch = prepared("s").init_data_written(Ok(())).ok().unwrap();
    let host = launch.process_spawned(Ok(())).ok().unwrap();
    let host = host.stdout_captured(true, 0).ok().unwrap();
    let error = host
        .port_known(
            Err(PortProblem::Timeout),
            "/tmp/sidex-init-s.json".to_string(),
            " stderr: boom".to_string(),
        )
        .err()
        .unwrap();
    assert_eq!(
        error.message(),
        "ERR_PORT_TIMEOUT: extension host port timeout (15s). \
         init_data_file=/tmp/sidex-init-s.json session=s server_js=/app/server.cjs \
         node=/opt/node. stderr: boom"
    );
    assert_eq!(lifecycle_for_error(&error.message()), ExtHostLifecycleState::PortTimeout);
    assert!(matches!(error, SpawnError::PortUnknown { .. }));
}

#[test]
fn a_host_that_ends_its_output_is_described() {
    let launch = prepared("s").init_data_written(Ok(())).ok().unwrap();
    let host = launch.process_spawned(Ok(())).ok().unwrap();
    let host = host.stdout_captured(true, 0).ok().unwrap();
    let error = host
        .port_known(Err(PortProblem::ReaderExited), "/tmp/f".to_string(), String::new())
        .err()
        .unwrap();
    assert_eq!(
        error.message(),
        "stdout reader exited without sending port. \
         init_data_file=/tmp/f session=s server_js=/app/server.cjs node=/opt/node."
    );
    assert_eq!(lifecycle_for_error(&error.message()), ExtHostLifecycleState::ServerStartFailed);
}

#[test]
fn a_host_that_breaks_the_protocol_is_described() {
    let launch = prepared("s").init_data_written(Ok(())).ok().unwrap();
    let host = launch.process_spawned(Ok(())).ok().unwrap();
    let host = host.stdout_captured(true, 0).ok().unwrap();
    let error = host
        .port_known(Err(PortProblem::NotPortMessage), "/tmp/f".to_string(), String::new())
        .err()
        .unwrap();
    assert_eq!(error.message(), "stdout line is not a port message");
}

#[test]
fn plain_paths_stay_as_they_are() {
    assert_eq!(normalize_for_node("/app/server.cjs".to_string()), "/app/server.cjs");
    assert_eq!(normalize_for_node("C:\\app\\server.cjs".to_string()), "C:\\app\\server.cjs");
    assert_eq!(normalize_for_node(String::new()), "");
}

#[test]
fn a_verbatim_path_is_shortened_or_kept() {
    let verbatim = "\\\\?\\C:\\app\\server.cjs".to_string();
    let normalized = normalize_for_node(verbatim.clone());
    assert!(normalized == verbatim || normalized == "C:\\app\\server.cjs");
}

#[test]
fn unusual_verbatim_paths_are_kept() {
    let long = format!("\\\\?\\C:\\{}", "a".repeat(254));
    for path in ["\\\\?\\UNC\\server\\share", "\\\\?\\C:\\a?b", "\\\\?\\1:\\a", long.as_str()] {
        assert_eq!(normalize_for_node(path.to_string()), path);
    }
}
