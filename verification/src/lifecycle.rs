//! The stages that an extension host passes through, and the stages at which it fails.

use vstd::prelude::*;

verus! {

/// Where the extension host stands, from the first request to a working or a failed host.
#[derive(Debug, Clone, Copy, PartialEq, Eq, Structural)]
pub enum ExtHostLifecycleState {
    Idle,
    Bootstrapping,
    ServerStarting,
    ServerListening,
    WsConnecting,
    WsConnected,
    HostStarting,
    HostReady,
    ActivatingExtensions,
    Ready,
    NodeMissing,
    ServerScriptMissing,
    ServerStartFailed,
    PortTimeout,
    WsConnectFailed,
    WsClosed,
    HostReadyTimeout,
    HostExited,
    ActivationTimeout,
    ActivationFailed,
    Degraded,
}

/// The word that stands for `state` in logs.
pub open spec fn lifecycle_label(state: ExtHostLifecycleState) -> Seq<char> {
    match state {
        ExtHostLifecycleState::Idle => "Idle"@,
        ExtHostLifecycleState::Bootstrapping => "Bootstrapping"@,
        ExtHostLifecycleState::ServerStarting => "ServerStarting"@,
        ExtHostLifecycleState::ServerListening => "ServerListening"@,
        ExtHostLifecycleState::WsConnecting => "WsConnecting"@,
        ExtHostLifecycleState::WsConnected => "WsConnected"@,
        ExtHostLifecycleState::HostStarting => "HostStarting"@,
        ExtHostLifecycleState::HostReady => "HostReady"@,
        ExtHostLifecycleState::ActivatingExtensions => "ActivatingExtensions"@,
        ExtHostLifecycleState::Ready => "Ready"@,
        ExtHostLifecycleState::NodeMissing => "NodeMissing"@,
        ExtHostLifecycleState::ServerScriptMissing => "ServerScriptMissing"@,
        ExtHostLifecycleState::ServerStartFailed => "ServerStartFailed"@,
        ExtHostLifecycleState::PortTimeout => "PortTimeout"@,
        ExtHostLifecycleState::WsConnectFailed => "WsConnectFailed"@,
        ExtHostLifecycleState::WsClosed => "WsClosed"@,
        ExtHostLifecycleState::HostReadyTimeout => "HostReadyTimeout"@,
        ExtHostLifecycleState::HostExited => "HostExited"@,
        ExtHostLifecycleState::ActivationTimeout => "ActivationTimeout"@,
        ExtHostLifecycleState::ActivationFailed => "ActivationFailed"@,
        ExtHostLifecycleState::Degraded => "Degraded"@,
    }
}

impl ExtHostLifecycleState {
    /// The state's name, as it is shown in logs.
    pub fn label(&self) -> (label: String)
        ensures
            label@ == lifecycle_label(*self),
    {
        let name: &str = match self {
            ExtHostLifecycleState::Idle => "Idle",
            ExtHostLifecycleState::Bootstrapping => "Bootstrapping",
            ExtHostLifecycleState::ServerStarting => "ServerStarting",
            ExtHostLifecycleState::ServerListening => "ServerListening",
            ExtHostLifecycleState::WsConnecting => "WsConnecting",
            ExtHostLifecycleState::WsConnected => "WsConnected",
            ExtHostLifecycleState::HostStarting => "HostStarting",
            ExtHostLifecycleState::HostReady => "HostReady",
            ExtHostLifecycleState::ActivatingExtensions => "ActivatingExtensions",
            ExtHostLifecycleState::Ready => "Ready",
            ExtHostLifecycleState::NodeMissing => "NodeMissing",
            ExtHostLifecycleState::ServerScriptMissing => "ServerScriptMissing",
            ExtHostLifecycleState::ServerStartFailed => "ServerStartFailed",
            ExtHostLifecycleState::PortTimeout => "PortTimeout",
            ExtHostLifecycleState::WsConnectFailed => "WsConnectFailed",
            ExtHostLifecycleState::WsClosed => "WsClosed",
            ExtHostLifecycleState::HostReadyTimeout => "HostReadyTimeout",
            ExtHostLifecycleState::HostExited => "HostExited",
            ExtHostLifecycleState::ActivationTimeout => "ActivationTimeout",
            ExtHostLifecycleState::ActivationFailed => "ActivationFailed",
            ExtHostLifecycleState::Degraded => "Degraded",
        };
        name.to_owned()
    }
}

/// No two states share a name, so a log line tells which state it speaks of.
pub proof fn labels_tell_states_apart(a: ExtHostLifecycleState, b: ExtHostLifecycleState)
    requires
        a != b,
    ensures
        lifecycle_label(a) != lifecycle_label(b),
{
    reveal_strlit("Idle");
    reveal_strlit("Bootstrapping");
    reveal_strlit("ServerStarting");
    reveal_strlit("ServerListening");
    reveal_strlit("WsConnecting");
    reveal_strlit("WsConnected");
    reveal_strlit("HostStarting");
    reveal_strlit("HostReady");
    reveal_strlit("ActivatingExtensions");
    reveal_strlit("Ready");
    reveal_strlit("NodeMissing");
    reveal_strlit("ServerScriptMissing");
    reveal_strlit("ServerStartFailed");
    reveal_strlit("PortTimeout");
    reveal_strlit("WsConnectFailed");
    reveal_strlit("WsClosed");
    reveal_strlit("HostReadyTimeout");
    reveal_strlit("HostExited");
    reveal_strlit("ActivationTimeout");
    reveal_strlit("ActivationFailed");
    reveal_strlit("Degraded");
    // Names of equal length differ in their first character.
    assert(lifecycle_label(a).len() != lifecycle_label(b).len() || lifecycle_label(a)[0]
        != lifecycle_label(b)[0]);
}

} // verus!
