use portalbox::apps::{parse_vscode_dir, VscodeDirError};
use portalbox::cli::{Reset, ResetCommands, ResetPlan};
use portalbox::dashboard::editor_url;
use portalbox::endpoint::server_proxy_url;
use portalbox::platform::{arch_label, get_os_arch};
use portalbox::protocol::ProxyConnectionMessage;
use portalbox::router::ServicePorts;
use portalbox::terminal::{is_portalbox_cmd, parse_portalbox_cmd, CmdError, PortalBoxCmd};

#[test]
fn get_out_platform_arch() {
    let val = get_os_arch("linux", "x86_64");
    assert_eq!(val, "linux-x64");
}

#[test]
fn arch_labels() {
    assert_eq!(arch_label("x86_64"), "x64");
    assert_eq!(arch_label("aarch64"), "arm64");
    assert_eq!(arch_label("riscv64"), "riscv64");
    assert_eq!(get_os_arch("macos", "aarch64"), "macos-arm64");
    assert_eq!(get_os_arch("windows", "x86"), "windows-x86");
}

#[test]
fn proxy_endpoint_joins_host_and_port() {
    assert_eq!(server_proxy_url("www.portalbox.app", 46637), "www.portalbox.app:46637");
    assert_eq!(server_proxy_url("localhost", 46637), "localhost:46637");
    assert_eq!(server_proxy_url("h", 0), "h:0");
    assert_eq!(server_proxy_url("h", 65535), "h:65535");
}

#[test]
fn router_maps_tags_to_ports() {
    let ports = ServicePorts::default();
    assert_eq!(ports, ServicePorts::new(3030, 3000, 22));
    assert_eq!(ports.port_for(ProxyConnectionMessage::DataHome), Some(3030));
    assert_eq!(ports.port_for(ProxyConnectionMessage::DataVscode), Some(3000));
    assert_eq!(ports.port_for(ProxyConnectionMessage::DataSsh), Some(22));
    assert_eq!(ports.port_for(ProxyConnectionMessage::Ping), None);
    assert_eq!(ports.port_for(ProxyConnectionMessage::AuthOk), None);
}

#[test]
fn resize_command_is_parsed() {
    assert_eq!(
        parse_portalbox_cmd("__portalbox_term_cmd_resize:80x24"),
        Ok(PortalBoxCmd::Resize { cols: 80, rows: 24 })
    );
    assert_eq!(
        parse_portalbox_cmd("__portalbox_term_cmd_resize:__portalbox_term_cmd_resize:+120x40x7"),
        Ok(PortalBoxCmd::Resize { cols: 120, rows: 40 })
    );
    assert_eq!(
        parse_portalbox_cmd("65535x0"),
        Ok(PortalBoxCmd::Resize { cols: 65535, rows: 0 })
    );
}

#[test]
fn malformed_resize_commands_are_rejected() {
    assert_eq!(
        parse_portalbox_cmd("__portalbox_term_cmd_resize:80"),
        Err(CmdError::MissingRows)
    );
    assert_eq!(parse_portalbox_cmd(""), Err(CmdError::MissingRows));
    assert_eq!(
        parse_portalbox_cmd("__portalbox_term_cmd_resize:80xab"),
        Err(CmdError::InvalidSize)
    );
    assert_eq!(parse_portalbox_cmd("65536x1"), Err(CmdError::InvalidSize));
    assert_eq!(parse_portalbox_cmd("x1"), Err(CmdError::InvalidSize));
    assert_eq!(parse_portalbox_cmd("1x"), Err(CmdError::InvalidSize));
    assert_eq!(parse_portalbox_cmd("-1x1"), Err(CmdError::InvalidSize));
    assert_eq!(parse_portalbox_cmd("+x1"), Err(CmdError::InvalidSize));
}

#[test]
fn resize_parse_agrees_with_std() {
    for text in ["0", "7", "+7", "00012", "65535", "65536", "99999999999", "", "+", "1a", " 1"] {
        let cmd = format!("{}x{}", text, text);
        let expected = text.parse::<u16>().ok();
        match (parse_portalbox_cmd(&cmd), expected) {
            (Ok(PortalBoxCmd::Resize { cols, rows }), Some(v)) => {
                assert_eq!(cols, v);
                assert_eq!(rows, v);
            }
            (Err(CmdError::InvalidSize), None) => {}
            (got, want) => panic!("{:?}: got {:?}, want {:?}", text, got, want),
        }
    }
}

#[test]
fn reset_plans() {
    let plan = |command| Reset { command }.plan();
    assert_eq!(
        plan(ResetCommands::Credentials),
        ResetPlan { credentials: true, apps: false, apps_data: false }
    );
    assert_eq!(
        plan(ResetCommands::Apps),
        ResetPlan { credentials: false, apps: true, apps_data: false }
    );
    assert_eq!(
        plan(ResetCommands::AppsData),
        ResetPlan { credentials: false, apps: false, apps_data: true }
    );
    assert_eq!(
        plan(ResetCommands::All),
        ResetPlan { credentials: false, apps: true, apps_data: true }
    );
}

#[test]
fn terminal_commands_are_told_from_keystrokes() {
    assert!(is_portalbox_cmd("__portalbox_term_cmd_resize:80x24"));
    assert!(is_portalbox_cmd("__portalbox_term_cmd"));
    assert!(!is_portalbox_cmd("ls -la\n"));
    assert!(!is_portalbox_cmd("__portalbox_term_cm"));
    assert!(!is_portalbox_cmd(""));
}

#[test]
fn editor_url_on_public_host() {
    assert_eq!(editor_url("alice-home.portalbox.app", 3000), "//alice-vscode.portalbox.app");
    assert_eq!(
        editor_url("a-home.portalbox.app-home.portalbox.app", 1),
        "//a-vscode.portalbox.app"
    );
}

#[test]
fn editor_url_on_local_host() {
    assert_eq!(editor_url("localhost:3030", 3000), "//localhost:3000");
    assert_eq!(editor_url("192.168.1.2", 3000), "//192.168.1.2:3000");
    assert_eq!(editor_url("[::1]:3030", 8080), "//[::1]:8080");
    assert_eq!(editor_url("alice-home.portalbox.app:443", 3000), "//alice-home.portalbox.app:3000");
}

#[test]
fn editor_directories_are_parsed() {
    let info = parse_vscode_dir("portalbox-vscode-1.2.3-linux-x64").unwrap();
    assert_eq!(info.latest_version, semver::Version::new(1, 2, 3));
    assert_eq!(info.os_arch, "linux-x64");
    assert_eq!(info.download_link, "");
    let info = parse_vscode_dir("portalbox-vscode-0.10.0-darwin-arm64").unwrap();
    assert_eq!(info.latest_version, semver::Version::new(0, 10, 0));
    assert_eq!(info.os_arch, "darwin-arm64");
    assert_eq!(
        parse_vscode_dir("portalbox-vscode-1.2.3").unwrap_err(),
        VscodeDirError::NotVscodeDir
    );
    assert_eq!(parse_vscode_dir("other-1.2.3-linux").unwrap_err(), VscodeDirError::NotVscodeDir);
    assert_eq!(
        parse_vscode_dir("portalbox-vscode-abc-linux").unwrap_err(),
        VscodeDirError::BadVersion
    );
    assert_eq!(
        parse_vscode_dir("portalbox-vscode--linux").unwrap_err(),
        VscodeDirError::BadVersion
    );
}
