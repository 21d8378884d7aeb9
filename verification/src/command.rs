//! Launch-command assembly and the editor-facing configuration payloads:
//! simple data shaping around a resolved binary path and a worktree root.

use vstd::prelude::*;
use vstd::string::StringExecFns;
use crate::config::Config;
use crate::paths;

verus! {

/// The final launch specification handed to the host: executable path,
/// argument sequence, environment mapping.
#[derive(Clone, Debug)]
pub struct LaunchCommand {
    pub command: String,
    pub args: Vec<String>,
    pub env: Vec<(String, String)>,
}

/// Assemble the launch command for a resolved binary and a project root.
/// The argument sequence is fixed whatever resolution path produced the
/// binary: a debug flag, a worktree flag followed by the root path, and the
/// operating-mode token; no environment variables are injected.
pub fn build_command(binary_path: String, worktree_root: &str) -> (c: LaunchCommand)
    ensures
        c.command@ == binary_path@,
        c.args@.len() == 4,
        c.args@[0]@ == "--debug"@,
        c.args@[1]@ == "--worktree"@,
        c.args@[2]@ == worktree_root@,
        c.args@[3]@ == "hybrid"@,
        c.env@.len() == 0,
{
    let mut args: Vec<String> = Vec::new();
    args.push(String::from_str("--debug"));
    args.push(String::from_str("--worktree"));
    args.push(String::from_str(worktree_root));
    args.push(String::from_str("hybrid"));
    LaunchCommand { command: binary_path, args, env: Vec::new() }
}

/// One workspace-folder descriptor: a `file://` URI for the root and a
/// display name taken from its last path segment.
#[derive(Clone, Debug)]
pub struct WorkspaceFolder {
    pub uri: String,
    pub name: String,
}

/// The initialization payload sent to the server when a project opens.
#[derive(Clone, Debug)]
pub struct InitOptions {
    pub folder: WorkspaceFolder,
    pub enabled: bool,
    pub extension_version: String,
    pub ide_name: String,
}

pub fn initialization_options(cfg: &Config, worktree_root: &str) -> (o: InitOptions)
    ensures
        o.folder.uri@ == "file://"@ + worktree_root@,
        o.folder.name@ == paths::tail_after_slash(worktree_root@),
        o.enabled,
        o.extension_version@ == cfg.extension_version@,
        o.ide_name@ == "Zed"@,
{
    InitOptions {
        folder: WorkspaceFolder {
            uri: paths::file_uri(worktree_root),
            name: paths::folder_name(worktree_root),
        },
        enabled: true,
        extension_version: cfg.extension_version.clone(),
        ide_name: String::from_str("Zed"),
    }
}

/// The workspace-configuration payload: integration switches and the fixed
/// local websocket endpoint parameters.
#[derive(Clone, Debug)]
pub struct WorkspaceSettings {
    pub enabled: bool,
    pub debug: bool,
    pub websocket_host: String,
    pub port_range_start: u16,
    pub port_range_end: u16,
    pub generate_tokens: bool,
}

pub fn workspace_settings() -> (w: WorkspaceSettings)
    ensures
        w.enabled,
        w.debug,
        w.websocket_host@ == "127.0.0.1"@,
        w.port_range_start == 10000u16,
        w.port_range_end == 65535u16,
        w.generate_tokens,
{
    WorkspaceSettings {
        enabled: true,
        debug: true,
        websocket_host: String::from_str("127.0.0.1"),
        port_range_start: 10000,
        port_range_end: 65535,
        generate_tokens: true,
    }
}

} // verus!
