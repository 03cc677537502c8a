use rtk_sync::service::{
    check_binary, command_output_text, ensure_absolute_binary, escape_systemd_arg, escape_xml,
    launchd_plist, service_args, service_platform, systemd_service, yes_no, ServiceError,
    ServicePlatform,
};

#[test]
fn service_runs_hidden_command() {
    assert_eq!(service_args("/usr/bin/rtk-sync", None), vec!["/usr/bin/rtk-sync", "run-service"]);
    assert_eq!(
        service_args("/usr/bin/rtk-sync", Some("/etc/c.toml")),
        vec!["/usr/bin/rtk-sync", "run-service", "--config", "/etc/c.toml"]
    );
}

#[test]
fn escapes_xml_entities() {
    assert_eq!(escape_xml("a&b<c>\"d'"), "a&amp;b&lt;c&gt;&quot;d&apos;");
    assert_eq!(escape_xml("&amp;"), "&amp;amp;");
}

#[test]
fn escapes_systemd_args() {
    assert_eq!(escape_systemd_arg("/usr/bin/rtk-sync".to_string()), "/usr/bin/rtk-sync");
    assert_eq!(escape_systemd_arg("a b".to_string()), "'a b'");
    assert_eq!(escape_systemd_arg("it's".to_string()), "'it'\\''s'");
    assert_eq!(escape_systemd_arg(String::new()), "");
}

#[test]
fn launchd_plist_lists_arguments() {
    let expected = r#"<?xml version="1.0" encoding="UTF-8"?>
<!DOCTYPE plist PUBLIC "-//Apple//DTD PLIST 1.0//EN" "http://www.apple.com/DTDs/PropertyList-1.0.dtd">
<plist version="1.0">
  <dict>
    <key>Label</key>
    <string>com.vuong.rtk-sync</string>
    <key>ProgramArguments</key>
    <array>
      <string>/Users/a&amp;b/rtk-sync</string>
      <string>run-service</string>
      <string>--config</string>
      <string>/tmp/c.toml</string>
    </array>
    <key>RunAtLoad</key>
    <true/>
    <key>KeepAlive</key>
    <true/>
    <key>StandardOutPath</key>
    <string>/tmp/rtk-sync.out.log</string>
    <key>StandardErrorPath</key>
    <string>/tmp/rtk-sync.err.log</string>
  </dict>
</plist>
"#;
    assert_eq!(launchd_plist("/Users/a&b/rtk-sync", Some("/tmp/c.toml")), expected);
}

#[test]
fn systemd_unit_has_exec_start() {
    let expected = "[Unit]\nDescription=RTK Sync\nAfter=network-online.target\n\n[Service]\nType=simple\nExecStart='/opt/my bin/rtk-sync' run-service\nRestart=always\nRestartSec=10\n\n[Install]\nWantedBy=default.target\n";
    assert_eq!(systemd_service("/opt/my bin/rtk-sync", None), expected);
}

#[test]
fn picks_service_manager() {
    assert_eq!(service_platform("macos"), Some(ServicePlatform::Launchd));
    assert_eq!(service_platform("linux"), Some(ServicePlatform::Systemd));
    assert_eq!(service_platform("windows"), None);
}

#[test]
fn binary_must_be_absolute_and_exist() {
    assert_eq!(check_binary("rel", false, true), Err(ServiceError::NotAbsolute { binary: "rel".into() }));
    assert_eq!(check_binary("/abs", true, false), Err(ServiceError::Missing { binary: "/abs".into() }));
    assert_eq!(check_binary("/abs", true, true), Ok(()));
    assert!(ensure_absolute_binary("relative/bin", true).is_err());
    assert!(ensure_absolute_binary("/abs/bin", false).is_err());
}

#[test]
fn command_output_prefers_stdout() {
    assert_eq!(command_output_text("  active\n", "warn"), Some("active".to_string()));
    assert_eq!(command_output_text("", " err \n"), Some("err".to_string()));
    assert_eq!(command_output_text(" \n", "err"), None);
    assert_eq!(command_output_text("", ""), None);
    assert_eq!(yes_no(true), "yes");
    assert_eq!(yes_no(false), "no");
}

use rtk_sync::service::{
    launchd_install_commands, launchd_uninstall_commands, systemd_disable_command,
    systemd_install_commands, systemd_reload_command, ServiceCommand,
};

fn shape(c: &ServiceCommand) -> (String, Vec<String>, bool) {
    (c.program.clone(), c.args.clone(), c.require_success)
}

fn owned(program: &str, args: &[&str], required: bool) -> (String, Vec<String>, bool) {
    (program.to_string(), args.iter().map(|a| a.to_string()).collect(), required)
}

#[test]
fn service_manager_commands() {
    let install: Vec<_> = launchd_install_commands("/p.plist").iter().map(shape).collect();
    assert_eq!(
        install,
        vec![
            owned("launchctl", &["unload", "/p.plist"], false),
            owned("launchctl", &["load", "/p.plist"], true),
            owned("launchctl", &["start", "com.vuong.rtk-sync"], true),
        ]
    );
    let remove: Vec<_> = launchd_uninstall_commands("/p.plist").iter().map(shape).collect();
    assert_eq!(
        remove,
        vec![
            owned("launchctl", &["stop", "com.vuong.rtk-sync"], false),
            owned("launchctl", &["unload", "/p.plist"], false),
        ]
    );
    let install: Vec<_> = systemd_install_commands().iter().map(shape).collect();
    assert_eq!(
        install,
        vec![
            owned("systemctl", &["--user", "daemon-reload"], true),
            owned("systemctl", &["--user", "enable", "--now", "rtk-sync"], true),
        ]
    );
    assert_eq!(shape(&systemd_disable_command()), owned("systemctl", &["--user", "disable", "--now", "rtk-sync"], false));
    assert_eq!(shape(&systemd_reload_command()), owned("systemctl", &["--user", "daemon-reload"], true));
}

use rtk_sync::service::{split_lines, tail_lines};

#[test]
fn log_tail_keeps_the_last_lines() {
    let log = "one\ntwo\r\nthree\n\nfive\n";
    assert_eq!(split_lines(log), log.lines().map(|l| l.to_string()).collect::<Vec<_>>());
    assert_eq!(tail_lines(log, 2), "\nfive");
    assert_eq!(tail_lines(log, 3), "three\n\nfive");
    assert_eq!(tail_lines(log, 10), "one\ntwo\nthree\n\nfive");
    assert_eq!(tail_lines(log, 0), "");
    assert_eq!(tail_lines("", 5), "");
    for text in ["a", "a\n", "a\r", "foo\r\nbar\n\nbaz\r", "\n\n", "x\ny"] {
        assert_eq!(split_lines(text), text.lines().map(|l| l.to_string()).collect::<Vec<_>>());
    }
}

#[test]
fn relative_binary_path_is_refused() {
    assert!(matches!(ensure_absolute_binary("", true), Err(ServiceError::NotAbsolute { .. })));
    assert!(matches!(ensure_absolute_binary("rtk-sync", true), Err(ServiceError::NotAbsolute { .. })));
    assert!(matches!(ensure_absolute_binary("bin/rtk-sync", false), Err(ServiceError::NotAbsolute { .. })));
}
