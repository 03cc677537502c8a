use rtk_sync::text::{i64_to_decimal, is_blank, parse_usize, trim};
use rtk_sync::update::{
    launchd_domain, launchd_service_target, release_archive, release_target, release_url,
    validate_repo, UpdateError,
};

#[test]
fn repos_are_owner_slash_name() {
    assert!(validate_repo("vuongtlt13/rtk-sync").is_ok());
    assert!(validate_repo("a.b/c_d-e").is_ok());
    assert_eq!(validate_repo("noslash"), Err(UpdateError::InvalidRepo { repo: "noslash".into() }));
    assert!(validate_repo("a/b/c").is_err());
    assert!(validate_repo("a/b c").is_err());
    assert!(validate_repo("a/b;rm").is_err());
}

#[test]
fn release_targets_and_urls() {
    assert_eq!(release_target("macos", "aarch64"), Ok("aarch64-apple-darwin"));
    assert_eq!(release_target("macos", "x86_64"), Ok("x86_64-apple-darwin"));
    assert_eq!(release_target("linux", "x86_64"), Ok("x86_64-unknown-linux-musl"));
    assert_eq!(
        release_target("linux", "aarch64"),
        Err(UpdateError::UnsupportedPlatform { os: "linux".into(), arch: "aarch64".into() })
    );
    let archive = release_archive("x86_64-unknown-linux-musl");
    assert_eq!(archive, "rtk-sync-x86_64-unknown-linux-musl.tar.gz");
    assert_eq!(
        release_url("vuongtlt13/rtk-sync", &archive),
        "https://github.com/vuongtlt13/rtk-sync/releases/latest/download/rtk-sync-x86_64-unknown-linux-musl.tar.gz"
    );
    assert_eq!(launchd_domain("501"), "gui/501");
    assert_eq!(launchd_service_target("501", "com.vuong.rtk-sync"), "gui/501/com.vuong.rtk-sync");
}

#[test]
fn text_helpers_match_std() {
    for s in ["0", "42", "+7", "", "+", "-1", "18446744073709551615", "18446744073709551616", "1a", " 1"] {
        assert_eq!(parse_usize(s), s.parse::<usize>().ok(), "{s:?}");
    }
    for s in ["", "  a b \t", "\u{3000}x\u{85}", "abc"] {
        assert_eq!(trim(s), s.trim());
        assert_eq!(is_blank(s), s.trim().is_empty());
    }
    for n in [0i64, 9, 10, -1, 123456789, i64::MIN, i64::MAX] {
        assert_eq!(i64_to_decimal(n), n.to_string());
    }
}

use rtk_sync::update::{UpdateAction, UpdateEvent, UpdatePaths, UpdateRun};

fn paths() -> UpdatePaths {
    UpdatePaths {
        url: "https://github.com/o/r/releases/latest/download/a.tar.gz".into(),
        tmp_dir: "/tmp/u".into(),
        archive_path: "/tmp/u/a.tar.gz".into(),
        binary_path: "/tmp/u/rtk-sync".into(),
        install_dir: "/opt/bin".into(),
        install_path: "/opt/bin/rtk-sync".into(),
        new_install_path: "/opt/bin/rtk-sync.new".into(),
        service_label: "com.vuong.rtk-sync".into(),
        plist_path: "/Users/v/Library/LaunchAgents/com.vuong.rtk-sync.plist".into(),
    }
}

fn expect_run(action: UpdateAction, program: &str, args: &[&str]) {
    match action {
        UpdateAction::Run { program: p, args: a } => {
            assert_eq!(p, program);
            assert_eq!(a, args.iter().map(|s| s.to_string()).collect::<Vec<_>>());
        }
        other => panic!("unexpected {:?}", other),
    }
}

fn expect_download(action: UpdateAction) {
    expect_run(
        action,
        "curl",
        &["-fsSL", "https://github.com/o/r/releases/latest/download/a.tar.gz", "-o", "/tmp/u/a.tar.gz"],
    );
}

/// Steps a macOS installation up to the download, with the service running.
fn stop_running_service(run: &mut UpdateRun) {
    assert!(matches!(run.step(UpdateEvent::Begin), UpdateAction::CheckPlist { ref path }
        if path == "/Users/v/Library/LaunchAgents/com.vuong.rtk-sync.plist"));
    assert!(matches!(run.step(UpdateEvent::Checked(true)), UpdateAction::GetUserId));
    match run.step(UpdateEvent::UserId(Ok("501".into()))) {
        UpdateAction::Probe { program, args } => {
            assert_eq!(program, "launchctl");
            assert_eq!(args, vec!["print".to_string(), "gui/501/com.vuong.rtk-sync".to_string()]);
        }
        other => panic!("unexpected {:?}", other),
    }
    assert!(matches!(run.step(UpdateEvent::Probed(Ok(true))), UpdateAction::GetUserId));
    match run.step(UpdateEvent::UserId(Ok("501".into()))) {
        UpdateAction::RunIgnoringStatus { program, args } => {
            assert_eq!(program, "launchctl");
            assert_eq!(
                args,
                vec![
                    "bootout".to_string(),
                    "gui/501".to_string(),
                    "/Users/v/Library/LaunchAgents/com.vuong.rtk-sync.plist".to_string()
                ]
            );
        }
        other => panic!("unexpected {:?}", other),
    }
    assert!(run.service_was_running);
    expect_download(run.step(UpdateEvent::Ran(Ok(()))));
}

#[test]
fn update_installs_and_restarts_a_running_service() {
    let mut run = UpdateRun::new(paths(), true, "macos".into());
    stop_running_service(&mut run);
    expect_run(run.step(UpdateEvent::Ran(Ok(()))), "tar", &["-xzf", "/tmp/u/a.tar.gz", "-C", "/tmp/u"]);
    assert!(matches!(run.step(UpdateEvent::Ran(Ok(()))), UpdateAction::CheckExtracted { ref path } if path == "/tmp/u/rtk-sync"));
    assert!(matches!(run.step(UpdateEvent::Checked(true)), UpdateAction::CreateInstallDir { ref path } if path == "/opt/bin"));
    expect_run(run.step(UpdateEvent::Ran(Ok(()))), "install", &["-m", "0755", "/tmp/u/rtk-sync", "/opt/bin/rtk-sync.new"]);
    assert!(matches!(run.step(UpdateEvent::Ran(Ok(()))), UpdateAction::Rename { ref from, ref to } if from == "/opt/bin/rtk-sync.new" && to == "/opt/bin/rtk-sync"));
    assert!(matches!(run.step(UpdateEvent::Ran(Ok(()))), UpdateAction::ClearQuarantine { .. }));
    expect_run(run.step(UpdateEvent::Ran(Err("xattr missing".into()))), "/opt/bin/rtk-sync", &["--version"]);
    assert!(matches!(run.step(UpdateEvent::Ran(Ok(()))), UpdateAction::GetUserId));
    expect_run(
        run.step(UpdateEvent::UserId(Ok("501".into()))),
        "launchctl",
        &["bootstrap", "gui/501", "/Users/v/Library/LaunchAgents/com.vuong.rtk-sync.plist"],
    );
    assert!(matches!(run.step(UpdateEvent::Ran(Ok(()))), UpdateAction::Finish(Ok(()))));
}

fn finish_install(run: &mut UpdateRun) -> UpdateAction {
    run.step(UpdateEvent::Ran(Ok(())));
    run.step(UpdateEvent::Ran(Ok(())));
    run.step(UpdateEvent::Checked(true));
    run.step(UpdateEvent::Ran(Ok(())));
    run.step(UpdateEvent::Ran(Ok(())));
    run.step(UpdateEvent::Ran(Ok(())));
    run.step(UpdateEvent::Ran(Ok(())));
    run.step(UpdateEvent::Ran(Ok(())))
}

#[test]
fn update_without_running_service_does_not_start_it() {
    // Not on macOS: the service is never probed.
    let mut run = UpdateRun::new(paths(), true, "linux".into());
    expect_download(run.step(UpdateEvent::Begin));
    assert!(!run.service_was_running);
    assert!(matches!(finish_install(&mut run), UpdateAction::Finish(Ok(()))));

    // On macOS without a plist.
    let mut run = UpdateRun::new(paths(), true, "macos".into());
    run.step(UpdateEvent::Begin);
    expect_download(run.step(UpdateEvent::Checked(false)));
    assert!(matches!(finish_install(&mut run), UpdateAction::Finish(Ok(()))));

    // On macOS with a plist that launchd does not know.
    let mut run = UpdateRun::new(paths(), true, "macos".into());
    run.step(UpdateEvent::Begin);
    run.step(UpdateEvent::Checked(true));
    run.step(UpdateEvent::UserId(Ok("501".into())));
    expect_download(run.step(UpdateEvent::Probed(Ok(false))));
    assert!(!run.service_was_running);
    assert!(matches!(finish_install(&mut run), UpdateAction::Finish(Ok(()))));

    // Running, but no restart wanted.
    let mut run = UpdateRun::new(paths(), false, "macos".into());
    stop_running_service(&mut run);
    assert!(matches!(finish_install(&mut run), UpdateAction::Finish(Ok(()))));
}

#[test]
fn update_stops_on_missing_binary_or_failed_step() {
    let mut run = UpdateRun::new(paths(), true, "macos".into());
    stop_running_service(&mut run);
    run.step(UpdateEvent::Ran(Ok(())));
    run.step(UpdateEvent::Ran(Ok(())));
    assert!(matches!(run.step(UpdateEvent::Checked(false)), UpdateAction::Finish(Err(UpdateError::MissingBinary))));

    let mut run = UpdateRun::new(paths(), false, "linux".into());
    run.step(UpdateEvent::Begin);
    match run.step(UpdateEvent::Ran(Err("curl failed with status 22".into()))) {
        UpdateAction::Finish(Err(UpdateError::Step(m))) => assert_eq!(m, "curl failed with status 22"),
        other => panic!("unexpected {:?}", other),
    }

    let mut run = UpdateRun::new(paths(), true, "macos".into());
    run.step(UpdateEvent::Begin);
    run.step(UpdateEvent::Checked(true));
    match run.step(UpdateEvent::UserId(Err("failed to run id -u".into()))) {
        UpdateAction::Finish(Err(UpdateError::Step(m))) => assert_eq!(m, "failed to run id -u"),
        other => panic!("unexpected {:?}", other),
    }

    let mut run = UpdateRun::new(paths(), true, "macos".into());
    run.step(UpdateEvent::Begin);
    run.step(UpdateEvent::Checked(true));
    run.step(UpdateEvent::UserId(Ok("501".into())));
    run.step(UpdateEvent::Probed(Ok(true)));
    match run.step(UpdateEvent::UserId(Err("id -u failed".into()))) {
        UpdateAction::Finish(Err(UpdateError::Step(m))) => assert_eq!(m, "id -u failed"),
        other => panic!("unexpected {:?}", other),
    }

    let mut run = UpdateRun::new(paths(), true, "linux".into());
    assert!(matches!(run.step(UpdateEvent::Checked(true)), UpdateAction::Finish(Err(UpdateError::OutOfOrder))));
}
