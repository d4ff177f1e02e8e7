use ext_host::lifecycle::ExtHostLifecycleState;
use ext_host::manifest::{build_manifest_summaries, ExtensionKind, ExtensionManifest};
use ext_host::stderr::StderrTail;
use ext_host::text::{is_white_space, join, same_text, starts_with, strip_prefix, trim};

#[test]
fn white_space_is_that_of_unicode() {
    for c in '\u{0}'..=char::MAX {
        assert_eq!(is_white_space(c), c.is_whitespace(), "{:?}", c);
    }
}

#[test]
fn trimming_takes_both_ends() {
    for text in ["", " ", "a", "  a b\t", "\u{3000}é x\u{85}\n", "\r\n\r\n", "x \u{200b} "] {
        assert_eq!(trim(text), text.trim());
    }
}

#[test]
fn prefixes_are_stripped() {
    assert_eq!(strip_prefix("ab c", "ab "), Some("c"));
    assert_eq!(strip_prefix("ab", "ab"), Some(""));
    assert_eq!(strip_prefix("a", "ab"), None);
    assert_eq!(strip_prefix("xb", "ab"), None);
    assert_eq!(strip_prefix("é1", "é"), Some("1"));
    assert!(starts_with("abc", ""));
    assert!(!starts_with("abc", "b"));
    assert!(same_text("é", "é"));
    assert!(!same_text("a", "ab"));
}

#[test]
fn lines_are_joined() {
    assert_eq!(join(&Vec::new(), ", "), "");
    assert_eq!(join(&vec!["a".to_string()], ", "), "a");
    assert_eq!(join(&vec!["a".to_string(), "".to_string(), "c".to_string()], ", "), "a, , c");
}

#[test]
fn the_last_lines_are_kept() {
    let mut tail = StderrTail::new();
    assert_eq!(tail.summary(), "");
    tail.push("one".to_string());
    assert_eq!(tail.summary(), " stderr: one");
    tail.push("two".to_string());
    assert_eq!(tail.summary(), " stderr: one | two");
    for i in 0..200 {
        tail.push(format!("{i}"));
    }
    let expected: Vec<String> = (0..200).map(|i| format!("{i}")).collect();
    assert_eq!(tail.summary(), format!(" stderr: {}", expected.join(" | ")));
}

#[test]
fn labels_are_the_names() {
    let states = [
        ExtHostLifecycleState::Idle,
        ExtHostLifecycleState::Bootstrapping,
        ExtHostLifecycleState::ServerStarting,
        ExtHostLifecycleState::ServerListening,
        ExtHostLifecycleState::WsConnecting,
        ExtHostLifecycleState::WsConnected,
        ExtHostLifecycleState::HostStarting,
        ExtHostLifecycleState::HostReady,
        ExtHostLifecycleState::ActivatingExtensions,
        ExtHostLifecycleState::Ready,
        ExtHostLifecycleState::NodeMissing,
        ExtHostLifecycleState::ServerScriptMissing,
        ExtHostLifecycleState::ServerStartFailed,
        ExtHostLifecycleState::PortTimeout,
        ExtHostLifecycleState::WsConnectFailed,
        ExtHostLifecycleState::WsClosed,
        ExtHostLifecycleState::HostReadyTimeout,
        ExtHostLifecycleState::HostExited,
        ExtHostLifecycleState::ActivationTimeout,
        ExtHostLifecycleState::ActivationFailed,
        ExtHostLifecycleState::Degraded,
    ];
    for state in states {
        assert_eq!(state.label(), format!("{state:?}"));
    }
}

fn manifest(id: &str, kind: ExtensionKind) -> ExtensionManifest {
    ExtensionManifest {
        id: id.to_string(),
        display_name: format!("{id} name"),
        version: "1.2.3".to_string(),
        kind,
        activation_events: vec!["onView:v".to_string(), "*".to_string()],
        main: Some("./main.js".to_string()),
        browser: None,
        wasm_binary: Some("x.wasm".to_string()),
        contributes_keys: vec!["views".to_string()],
        path: format!("/ext/{id}"),
    }
}

#[test]
fn manifests_are_summed_up_in_order() {
    let manifests = [manifest("a", ExtensionKind::Node), manifest("b", ExtensionKind::Wasm)];
    let summaries = build_manifest_summaries(&manifests);
    assert_eq!(summaries.len(), 2);
    assert_eq!(summaries[0].id, "a");
    assert_eq!(summaries[0].name, "a name");
    assert_eq!(summaries[0].version, "1.2.3");
    assert_eq!(summaries[0].kind, "node");
    assert_eq!(summaries[0].activation_events, vec!["onView:v", "*"]);
    assert_eq!(summaries[0].main.as_deref(), Some("./main.js"));
    assert_eq!(summaries[0].browser, None);
    assert_eq!(summaries[0].wasm_binary.as_deref(), Some("x.wasm"));
    assert_eq!(summaries[0].contributes, vec!["views"]);
    assert_eq!(summaries[0].location, "/ext/a");
    assert_eq!(summaries[1].id, "b");
    assert_eq!(summaries[1].kind, "wasm");
    assert!(build_manifest_summaries(&[]).is_empty());
}
