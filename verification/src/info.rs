//! What the workbench is told when it bootstraps the extension platform or asks for its status.

use crate::lifecycle::ExtHostLifecycleState;
use crate::manifest::ExtensionManifestSummary;
use crate::session::NodeRuntimeInfo;
use vstd::prelude::*;

verus! {

/// How to reach the host.
#[derive(Debug, Clone)]
pub struct ExtensionTransportInfo {
    pub kind: String,
    pub endpoint: String,
}

/// Where the host's files are.
#[derive(Debug, Clone)]
pub struct ExtensionPathsInfo {
    pub server_script: String,
    pub builtin_extensions_dir: String,
    pub user_extensions_dir: String,
    pub global_storage_dir: String,
}

/// The answer to a bootstrap.
#[derive(Debug, Clone)]
pub struct ExtensionPlatformBootstrap {
    pub transport: ExtensionTransportInfo,
    pub runtime: NodeRuntimeInfo,
    pub paths: ExtensionPathsInfo,
    pub session_kind: String,
    pub extensions: Vec<ExtensionManifestSummary>,
    pub init_data_json: String,
}

/// The answer to a question for the status.
#[derive(Debug, Clone)]
pub struct ExtensionPlatformStatus {
    pub running: bool,
    pub port: Option<u16>,
    pub session_id: Option<String>,
    pub uptime_secs: Option<u64>,
    pub extension_count: Option<usize>,
    pub restart_count: Option<u32>,
    pub total_crashes: u32,
    pub lifecycle_state: ExtHostLifecycleState,
    pub crash_loop_detected: bool,
}

} // verus!
