use ext_host::json::{encode_strings, is_json};
use ext_host::port::{
    refuse_unprefixed, PortEvent, PortMessage, PortProblem, PortReader, PortStep,
    PORT_TIMEOUT_NANOS,
};

fn reader() -> PortReader {
    PortReader::new("ext-host-1".to_string(), 1_000)
}

fn line(text: &str) -> PortStep {
    reader().receive(PortEvent::Line(text.to_string()))
}

fn message(msg_type: &str, session_id: &str, port: u16) -> PortMessage {
    PortMessage { msg_type: msg_type.to_string(), session_id: session_id.to_string(), port }
}

#[test]
fn a_prefixed_line_hands_over_its_message() {
    let json = "{\"type\":\"sidex:server-port\",\"sessionId\":\"ext-host-1\",\"port\":12345}";
    match line(&format!("  SIDEX_EXT_HOST_PORT   {json} \r\n")) {
        PortStep::Decode(text) => assert_eq!(text, json),
        other => panic!("{other:?}"),
    }
}

#[test]
fn a_prefix_without_a_message_is_no_prefix() {
    assert!(matches!(line("SIDEX_EXT_HOST_PORT \n"), PortStep::Failed(PortProblem::NotJson)));
}

#[test]
fn a_port_message_of_the_session_is_accepted() {
    let step = reader().judge(Ok(message("sidex:server-port", "ext-host-1", 12345)));
    assert!(matches!(step, PortStep::Accepted { port: 12345 }));
}

#[test]
fn other_messages_are_refused() {
    let step = reader().judge(Ok(message("sidex:host-ready", "ext-host-1", 12345)));
    assert!(matches!(step, PortStep::Failed(PortProblem::UnexpectedType)));
    let step = reader().judge(Ok(message("sidex:server-port", "ext-host-2", 12345)));
    assert!(matches!(step, PortStep::Failed(PortProblem::SessionMismatch)));
    let step = reader().judge(Ok(message("other", "ext-host-2", 12345)));
    assert!(matches!(step, PortStep::Failed(PortProblem::UnexpectedType)));
    match reader().judge(Err("missing field `port`".to_string())) {
        PortStep::Failed(PortProblem::BadJson(detail)) => assert_eq!(detail, "missing field `port`"),
        other => panic!("{other:?}"),
    }
}

#[test]
fn a_port_without_the_prefix_is_refused() {
    let full = "{\"type\":\"sidex:server-port\",\"sessionId\":\"ext-host-1\",\"port\":12345}";
    for text in ["{\"port\": 12345}\n", "{\"port\": 70000}", full] {
        assert!(matches!(line(text), PortStep::Failed(PortProblem::NotPortMessage)), "{text}");
    }
}

#[test]
fn lines_without_the_prefix_are_told_apart() {
    assert!(matches!(refuse_unprefixed(true), PortStep::Failed(PortProblem::NotPortMessage)));
    assert!(matches!(refuse_unprefixed(false), PortStep::Failed(PortProblem::NotJson)));
}

#[test]
fn json_without_a_port_is_refused() {
    for text in ["{}", "[1]", "7", "{\"port\":-1}", "{\"port\":1.5}", "{\"port\":\"80\"}", "null"] {
        assert!(matches!(line(text), PortStep::Failed(PortProblem::NotPortMessage)), "{text}");
    }
}

#[test]
fn a_log_line_is_refused() {
    for text in ["server listening on port 12345\n", "", "\n", "{\"port\": 1"] {
        assert!(matches!(line(text), PortStep::Failed(PortProblem::NotJson)), "{text}");
    }
}

#[test]
fn waiting_goes_on_while_nothing_comes() {
    assert!(matches!(reader().receive(PortEvent::Quiet), PortStep::Wait));
    assert!(matches!(
        reader().receive(PortEvent::Disconnected),
        PortStep::Failed(PortProblem::ReaderExited)
    ));
}

#[test]
fn waiting_ends_after_fifteen_seconds() {
    assert_eq!(PORT_TIMEOUT_NANOS, 15_000_000_000);
    assert!(matches!(reader().check_time(0), PortStep::Wait));
    assert!(matches!(reader().check_time(1_000 + PORT_TIMEOUT_NANOS), PortStep::Wait));
    assert!(matches!(
        reader().check_time(1_001 + PORT_TIMEOUT_NANOS),
        PortStep::Failed(PortProblem::Timeout)
    ));
}

#[test]
fn json_is_recognised() {
    for text in ["{\"a\":1,\"port\":8080}", " [1, null] ", "7", "\"port\""] {
        assert!(is_json(text), "{text}");
    }
    for text in ["port", "", "{\"port\":8080", "[1] 2", "{'a':1}"] {
        assert!(!is_json(text), "{text}");
    }
}

#[test]
fn a_silent_host_is_asked_for_its_stderr() {
    assert!(PortProblem::Timeout.wants_stderr());
    assert!(PortProblem::ReaderExited.wants_stderr());
    for problem in [
        PortProblem::UnexpectedType,
        PortProblem::SessionMismatch,
        PortProblem::BadJson("eof".to_string()),
        PortProblem::NotPortMessage,
        PortProblem::NotJson,
    ] {
        assert!(!problem.wants_stderr(), "{problem:?}");
    }
}

#[test]
fn strings_are_written_as_json() {
    let items = vec!["/a b".to_string(), "C:\\x\"y\"".to_string()];
    assert_eq!(encode_strings(&items).unwrap(), "[\"/a b\",\"C:\\\\x\\\"y\\\"\"]");
    assert_eq!(encode_strings(&Vec::new()).unwrap(), "[]");
}

#[test]
fn control_characters_are_escaped_in_json() {
    for code in 0u32..0x20 {
        let c = char::from_u32(code).unwrap();
        let escaped = match c {
            '\u{8}' => "\\b".to_string(),
            '\t' => "\\t".to_string(),
            '\n' => "\\n".to_string(),
            '\u{c}' => "\\f".to_string(),
            '\r' => "\\r".to_string(),
            _ => format!("\\u{code:04x}"),
        };
        let items = vec![format!("a{c}b")];
        assert_eq!(encode_strings(&items).unwrap(), format!("[\"a{escaped}b\"]"));
    }
    let kept = "/'<&\u{7f}\u{80}\u{2028}\u{e9}\u{1f600}";
    assert_eq!(encode_strings(&vec![kept.to_string()]).unwrap(), format!("[\"{kept}\"]"));
}

#[test]
fn problems_are_described() {
    let cases = [
        (
            PortProblem::Timeout,
            "ERR_PORT_TIMEOUT: extension host port timeout (15s). init_data_file=/tmp/f. stderr: x",
        ),
        (PortProblem::UnexpectedType, "unexpected port message type"),
        (PortProblem::SessionMismatch, "session_id mismatch in port message"),
        (PortProblem::BadJson("eof".to_string()), "bad port JSON: eof"),
        (PortProblem::NotPortMessage, "stdout line is not a port message"),
        (PortProblem::NotJson, "stdout line is not valid JSON"),
        (
            PortProblem::ReaderExited,
            "stdout reader exited without sending port. init_data_file=/tmp/f. stderr: x",
        ),
    ];
    for (problem, text) in cases {
        assert_eq!(problem.message("/tmp/f", " stderr: x"), text);
    }
}
