use lsp_provision::config::Config;
use lsp_provision::command::{build_command, initialization_options, workspace_settings};
use lsp_provision::paths::{binary_path, file_uri, folder_name, version_dir};
use lsp_provision::platform::{asset_name, HostArch, HostOs};
use lsp_provision::release::{find_asset, Asset};

fn test_config(allow_network_install: bool) -> Config {
    Config {
        repo: String::from("example-org/code-ide"),
        search_binary: String::from("code-server-zed"),
        installed_binary: String::from("code-server"),
        asset_stem: String::from("code-server"),
        extension_version: String::from("0.1.1"),
        allow_network_install,
    }
}

#[test]
fn asset_names_for_all_supported_platforms() {
    assert_eq!(
        asset_name("code-server", HostOs::Mac, HostArch::Aarch64).unwrap(),
        "code-server-darwin-aarch64.tar.gz"
    );
    assert_eq!(
        asset_name("code-server", HostOs::Mac, HostArch::X8664).unwrap(),
        "code-server-darwin-x86_64.tar.gz"
    );
    assert_eq!(
        asset_name("code-server", HostOs::Linux, HostArch::Aarch64).unwrap(),
        "code-server-linux-aarch64.tar.gz"
    );
    assert_eq!(
        asset_name("code-server", HostOs::Linux, HostArch::X8664).unwrap(),
        "code-server-linux-x86_64.tar.gz"
    );
}

#[test]
fn asset_name_rejects_unsupported_combinations() {
    assert_eq!(
        asset_name("code-server", HostOs::Other, HostArch::Aarch64).unwrap_err(),
        "Unsupported OS — only macOS and Linux are supported"
    );
    assert_eq!(
        asset_name("code-server", HostOs::Other, HostArch::Other).unwrap_err(),
        "Unsupported OS — only macOS and Linux are supported"
    );
    assert_eq!(
        asset_name("code-server", HostOs::Mac, HostArch::Other).unwrap_err(),
        "Unsupported architecture — only aarch64 and x86_64 are supported"
    );
}

#[test]
fn cache_paths_are_deterministic() {
    assert_eq!(version_dir("1.2.3"), "download/1.2.3");
    assert_eq!(binary_path("code-server", "1.2.3"), "download/1.2.3/code-server");
    assert_eq!(binary_path("code-server", "1.2.3"), binary_path("code-server", "1.2.3"));
    assert_eq!(binary_path("code-server", ""), "download//code-server");
}

#[test]
fn folder_name_takes_last_segment() {
    assert_eq!(folder_name("/home/user/project"), "project");
    assert_eq!(folder_name("project"), "project");
    assert_eq!(folder_name(""), "");
    assert_eq!(folder_name("/ends/with/slash/"), "");
    assert_eq!(folder_name("/"), "");
}

#[test]
fn file_uri_prefixes_scheme() {
    assert_eq!(file_uri("/home/user/project"), "file:///home/user/project");
    assert_eq!(file_uri(""), "file://");
}

#[test]
fn find_asset_picks_first_exact_match() {
    let assets = vec![
        Asset {
            name: String::from("other.tar.gz"),
            download_url: String::from("https://example.invalid/other"),
        },
        Asset {
            name: String::from("wanted.tar.gz"),
            download_url: String::from("https://example.invalid/first"),
        },
        Asset {
            name: String::from("wanted.tar.gz"),
            download_url: String::from("https://example.invalid/second"),
        },
    ];
    assert_eq!(find_asset(&assets, &String::from("wanted.tar.gz")), Some(1));
    assert_eq!(find_asset(&assets, &String::from("missing.tar.gz")), None);
    assert_eq!(find_asset(&Vec::new(), &String::from("wanted.tar.gz")), None);
}

#[test]
fn launch_command_has_fixed_argument_sequence() {
    let cmd = build_command(String::from("/usr/bin/code-server-zed"), "/work/tree");
    assert_eq!(cmd.command, "/usr/bin/code-server-zed");
    assert_eq!(
        cmd.args,
        vec!["--debug", "--worktree", "/work/tree", "hybrid"]
    );
    assert!(cmd.env.is_empty());
}

#[test]
fn initialization_options_shape() {
    let cfg = test_config(true);
    let o = initialization_options(&cfg, "/home/user/my-project");
    assert_eq!(o.folder.uri, "file:///home/user/my-project");
    assert_eq!(o.folder.name, "my-project");
    assert!(o.enabled);
    assert_eq!(o.extension_version, "0.1.1");
    assert_eq!(o.ide_name, "Zed");
}

#[test]
fn workspace_settings_fixed_values() {
    let w = workspace_settings();
    assert!(w.enabled);
    assert!(w.debug);
    assert_eq!(w.websocket_host, "127.0.0.1");
    assert_eq!(w.port_range_start, 10000);
    assert_eq!(w.port_range_end, 65535);
    assert!(w.generate_tokens);
}

#[test]
fn asset_name_uses_configured_stem() {
    assert_eq!(
        asset_name("another-server", HostOs::Linux, HostArch::Aarch64).unwrap(),
        "another-server-linux-aarch64.tar.gz"
    );
}
