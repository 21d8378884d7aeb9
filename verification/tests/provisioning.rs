use lsp_provision::config::Config;
use lsp_provision::machine::{step, Action, Event, ProvisionState};
use lsp_provision::platform::{HostArch, HostOs};
use lsp_provision::release::{ArchiveFormat, Asset, ReleaseInfo};
use lsp_provision::command::build_command;

fn test_config(allow_network_install: bool) -> Config {
    Config {
        repo: String::from("example-org/code-ide"),
        search_binary: String::from("code-server-zed"),
        installed_binary: String::from("code-server"),
        asset_stem: String::from("code-server"),
        extension_version: String::from("0.1.1"),
        allow_network_install,
    }
}

fn darwin_aarch64_release(asset_name: &str) -> ReleaseInfo {
    ReleaseInfo {
        version: String::from("1.2.3"),
        assets: vec![Asset {
            name: String::from(asset_name),
            download_url: String::from("https://example.invalid/server.tar.gz"),
        }],
    }
}

#[test]
fn scenario_fresh_install_on_mac_aarch64() {
    let cfg = test_config(true);
    let mut network_calls = 0;

    let (s, a) = step(&cfg, ProvisionState::Start, Event::Begin);
    match a {
        Action::QueryLocal { binary } => assert_eq!(binary, "code-server-zed"),
        other => panic!("unexpected action: {:?}", other),
    }

    let (s, a) = step(&cfg, s, Event::LocalLookup(None));
    assert!(matches!(a, Action::QueryPlatform));

    let (s, a) = step(
        &cfg,
        s,
        Event::PlatformReport(HostOs::Mac, HostArch::Aarch64),
    );
    match a {
        Action::QueryRelease { ref repo, require_assets, pre_release } => {
            network_calls += 1;
            assert_eq!(repo, "example-org/code-ide");
            assert!(require_assets);
            assert!(!pre_release);
        },
        ref other => panic!("unexpected action: {:?}", other),
    }

    let release = darwin_aarch64_release("code-server-darwin-aarch64.tar.gz");
    let (s, a) = step(&cfg, s, Event::ReleaseReply(Ok(release)));
    match a {
        Action::ProbeCache { path } => assert_eq!(path, "download/1.2.3/code-server"),
        other => panic!("unexpected action: {:?}", other),
    }

    let (s, a) = step(&cfg, s, Event::CacheProbe(false));
    assert!(matches!(a, Action::SignalDownloading));

    let (s, a) = step(&cfg, s, Event::Signaled);
    match a {
        Action::Download { url, dest, file_type } => {
            network_calls += 1;
            assert_eq!(url, "https://example.invalid/server.tar.gz");
            assert_eq!(dest, "download/1.2.3");
            assert_eq!(file_type, ArchiveFormat::GzipTar);
        },
        other => panic!("unexpected action: {:?}", other),
    }

    let (s, a) = step(&cfg, s, Event::DownloadDone(Ok(())));
    match a {
        Action::MakeExecutable { path } => {
            assert_eq!(path, "download/1.2.3/code-server")
        },
        other => panic!("unexpected action: {:?}", other),
    }

    let (s, a) = step(&cfg, s, Event::ChmodDone(Ok(())));
    assert!(matches!(a, Action::SignalIdle));

    let (_, a) = step(&cfg, s, Event::Signaled);
    let resolved = match a {
        Action::Finish { path } => path,
        other => panic!("unexpected action: {:?}", other),
    };
    assert_eq!(resolved, "download/1.2.3/code-server");
    assert_eq!(network_calls, 2);

    let cmd = build_command(resolved, "/home/user/project");
    assert_eq!(cmd.command, "download/1.2.3/code-server");
    assert_eq!(cmd.args[0], "--debug");
    assert_eq!(cmd.args[1], "--worktree");
    assert_eq!(cmd.args[2], "/home/user/project");
    assert_eq!(cmd.args[3], "hybrid");
    assert_eq!(cmd.args.len(), 4);
    assert!(cmd.env.is_empty());
}

#[test]
fn scenario_cached_version_short_circuits() {
    let cfg = test_config(true);
    let mut download_or_signal_calls = 0;

    let (s, _) = step(&cfg, ProvisionState::Start, Event::Begin);
    let (s, _) = step(&cfg, s, Event::LocalLookup(None));
    let (s, _) = step(
        &cfg,
        s,
        Event::PlatformReport(HostOs::Mac, HostArch::Aarch64),
    );
    let release = darwin_aarch64_release("code-server-darwin-aarch64.tar.gz");
    let (s, a) = step(&cfg, s, Event::ReleaseReply(Ok(release)));
    let cached_path = match a {
        Action::ProbeCache { path } => path,
        other => panic!("unexpected action: {:?}", other),
    };

    let (_, a) = step(&cfg, s, Event::CacheProbe(true));
    match a {
        Action::Finish { path } => {
            assert_eq!(path, cached_path);
            assert_eq!(path, "download/1.2.3/code-server");
        },
        Action::SignalDownloading | Action::Download { .. } | Action::SignalIdle => {
            download_or_signal_calls += 1;
        },
        other => panic!("unexpected action: {:?}", other),
    }
    assert_eq!(download_or_signal_calls, 0);
}

#[test]
fn scenario_unsupported_os_fails_before_any_network() {
    let cfg = test_config(true);
    let mut network_calls = 0;

    let (s, _) = step(&cfg, ProvisionState::Start, Event::Begin);
    let (s, _) = step(&cfg, s, Event::LocalLookup(None));
    let (s, a) = step(
        &cfg,
        s,
        Event::PlatformReport(HostOs::Other, HostArch::X8664),
    );
    match a {
        Action::Fail { message } => {
            assert_eq!(message, "Unsupported OS — only macOS and Linux are supported")
        },
        Action::QueryRelease { .. } => network_calls += 1,
        other => panic!("unexpected action: {:?}", other),
    }
    assert!(matches!(s, ProvisionState::Failed { .. }));
    assert_eq!(network_calls, 0);
}

#[test]
fn unsupported_architecture_fails() {
    let cfg = test_config(true);
    let (s, _) = step(&cfg, ProvisionState::Start, Event::Begin);
    let (s, _) = step(&cfg, s, Event::LocalLookup(None));
    let (_, a) = step(
        &cfg,
        s,
        Event::PlatformReport(HostOs::Linux, HostArch::Other),
    );
    match a {
        Action::Fail { message } => assert_eq!(
            message,
            "Unsupported architecture — only aarch64 and x86_64 are supported"
        ),
        other => panic!("unexpected action: {:?}", other),
    }
}

#[test]
fn local_binary_skips_resolver_chain() {
    let cfg = test_config(true);
    let mut network_calls = 0;

    let (s, _) = step(&cfg, ProvisionState::Start, Event::Begin);
    let (s, a) = step(
        &cfg,
        s,
        Event::LocalLookup(Some(String::from("/usr/local/bin/code-server-zed"))),
    );
    match a {
        Action::Finish { path } => assert_eq!(path, "/usr/local/bin/code-server-zed"),
        Action::QueryRelease { .. } | Action::QueryPlatform => network_calls += 1,
        other => panic!("unexpected action: {:?}", other),
    }
    assert!(matches!(s, ProvisionState::Resolved { .. }));
    assert_eq!(network_calls, 0);
}

#[test]
fn missing_asset_names_asset_and_version() {
    let cfg = test_config(true);
    let mut write_requests = 0;

    let (s, _) = step(&cfg, ProvisionState::Start, Event::Begin);
    let (s, _) = step(&cfg, s, Event::LocalLookup(None));
    let (s, _) = step(
        &cfg,
        s,
        Event::PlatformReport(HostOs::Mac, HostArch::Aarch64),
    );
    let release = darwin_aarch64_release("code-server-linux-x86_64.tar.gz");
    let (s, _) = step(&cfg, s, Event::ReleaseReply(Ok(release)));
    let (s, a) = step(&cfg, s, Event::CacheProbe(false));
    match a {
        Action::Fail { message } => assert_eq!(
            message,
            "No asset 'code-server-darwin-aarch64.tar.gz' found in release 1.2.3"
        ),
        Action::Download { .. } | Action::MakeExecutable { .. } => write_requests += 1,
        other => panic!("unexpected action: {:?}", other),
    }
    assert!(matches!(s, ProvisionState::Failed { .. }));
    assert_eq!(write_requests, 0);
}

#[test]
fn registry_failure_propagates() {
    let cfg = test_config(true);
    let (s, _) = step(&cfg, ProvisionState::Start, Event::Begin);
    let (s, _) = step(&cfg, s, Event::LocalLookup(None));
    let (s, _) = step(
        &cfg,
        s,
        Event::PlatformReport(HostOs::Linux, HostArch::X8664),
    );
    let (_, a) = step(
        &cfg,
        s,
        Event::ReleaseReply(Err(String::from("no releases found"))),
    );
    match a {
        Action::Fail { message } => assert_eq!(message, "no releases found"),
        other => panic!("unexpected action: {:?}", other),
    }
}

#[test]
fn download_failure_wraps_cause() {
    let cfg = test_config(true);
    let (s, _) = step(&cfg, ProvisionState::Start, Event::Begin);
    let (s, _) = step(&cfg, s, Event::LocalLookup(None));
    let (s, _) = step(
        &cfg,
        s,
        Event::PlatformReport(HostOs::Mac, HostArch::Aarch64),
    );
    let release = darwin_aarch64_release("code-server-darwin-aarch64.tar.gz");
    let (s, _) = step(&cfg, s, Event::ReleaseReply(Ok(release)));
    let (s, _) = step(&cfg, s, Event::CacheProbe(false));
    let (s, _) = step(&cfg, s, Event::Signaled);
    let (_, a) = step(
        &cfg,
        s,
        Event::DownloadDone(Err(String::from("connection reset"))),
    );
    match a {
        Action::Fail { message } => {
            assert_eq!(message, "Failed to download server binary: connection reset")
        },
        other => panic!("unexpected action: {:?}", other),
    }
}

#[test]
fn chmod_failure_wraps_cause() {
    let cfg = test_config(true);
    let (s, _) = step(&cfg, ProvisionState::Start, Event::Begin);
    let (s, _) = step(&cfg, s, Event::LocalLookup(None));
    let (s, _) = step(
        &cfg,
        s,
        Event::PlatformReport(HostOs::Mac, HostArch::Aarch64),
    );
    let release = darwin_aarch64_release("code-server-darwin-aarch64.tar.gz");
    let (s, _) = step(&cfg, s, Event::ReleaseReply(Ok(release)));
    let (s, _) = step(&cfg, s, Event::CacheProbe(false));
    let (s, _) = step(&cfg, s, Event::Signaled);
    let (s, _) = step(&cfg, s, Event::DownloadDone(Ok(())));
    let (_, a) = step(&cfg, s, Event::ChmodDone(Err(String::from("read-only filesystem"))));
    match a {
        Action::Fail { message } => {
            assert_eq!(message, "Failed to make binary executable: read-only filesystem")
        },
        other => panic!("unexpected action: {:?}", other),
    }
}

#[test]
fn no_network_profile_requires_local_binary() {
    let cfg = test_config(false);
    let (s, _) = step(&cfg, ProvisionState::Start, Event::Begin);
    let (s, a) = step(&cfg, s, Event::LocalLookup(None));
    match a {
        Action::Fail { message } => assert_eq!(
            message,
            "Local binary 'code-server-zed' was not found on the search path"
        ),
        other => panic!("unexpected action: {:?}", other),
    }
    assert!(matches!(s, ProvisionState::Failed { .. }));
}
