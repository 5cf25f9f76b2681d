use concord::install::{step_after_check, step_after_install, InstallStep};
use concord::startup::{startup_failure, STARTUP_FAILURE_EXIT_CODE};
use concord::update::{check_result, UpdateCheckResult};
use concord::webview::media_policy;

fn s(text: &str) -> String {
    text.to_string()
}

#[test]
fn check_reports_available_update() {
    let r = check_result(s("1.0.0"), Ok(Some(s("1.2.0")))).unwrap();
    assert!(r.available);
    assert_eq!(r.current_version, "1.0.0");
    assert_eq!(r.latest_version, Some(s("1.2.0")));
}

#[test]
fn check_reports_no_update() {
    let r = check_result(s("1.0.0"), Ok(None)).unwrap();
    assert!(!r.available);
    assert_eq!(r.current_version, "1.0.0");
    assert_eq!(r.latest_version, None);
}

#[test]
fn check_passes_error_through() {
    let r = check_result(s("1.0.0"), Err(s("network unreachable")));
    match r {
        Err(e) => assert_eq!(e, "network unreachable"),
        Ok(_) => panic!("expected an error"),
    }
}

#[test]
fn record_flag_agrees_with_latest_version() {
    for latest in [None, Some(s("")), Some(s("2.0.0"))] {
        let r = UpdateCheckResult::new(s("0.9.1"), latest.clone());
        assert_eq!(r.available, r.latest_version.is_some());
        assert_eq!(r.latest_version, latest);
        assert_eq!(r.current_version, "0.9.1");
    }
}

#[test]
fn install_without_update_gives_fixed_message() {
    match step_after_check(Ok(None)) {
        InstallStep::Fail(m) => assert_eq!(m, "No update is currently available."),
        _ => panic!("expected a failure"),
    }
}

#[test]
fn install_with_update_downloads() {
    assert!(matches!(
        step_after_check(Ok(Some(s("3.1.4")))),
        InstallStep::DownloadAndInstall
    ));
}

#[test]
fn install_check_error_passes_through() {
    match step_after_check(Err(s("updater not configured"))) {
        InstallStep::Fail(m) => assert_eq!(m, "updater not configured"),
        _ => panic!("expected a failure"),
    }
}

#[test]
fn install_success_restarts() {
    assert!(matches!(step_after_install(Ok(())), InstallStep::Restart));
}

#[test]
fn install_error_passes_through() {
    match step_after_install(Err(s("signature mismatch"))) {
        InstallStep::Fail(m) => assert_eq!(m, "signature mismatch"),
        _ => panic!("expected a failure"),
    }
}

#[test]
fn startup_failure_without_wsl() {
    let r = startup_failure("no display", false);
    assert_eq!(r.exit_code, 1);
    assert_eq!(STARTUP_FAILURE_EXIT_CODE, 1);
    assert_eq!(
        r.lines,
        vec![
            s("Concord failed to start: no display"),
            s(""),
            s("Troubleshooting:"),
            s("1) Start with `npm run tauri dev` from the repo root (not plain `cargo run`)."),
            s("2) Ensure the frontend dev server is reachable at http://localhost:5173."),
            s("3) If you're on Linux/WSL, ensure a GUI session is available before launching."),
        ]
    );
}

#[test]
fn startup_failure_under_wsl_adds_hint() {
    let r = startup_failure("", true);
    assert_eq!(r.exit_code, 1);
    assert_eq!(r.lines.len(), 7);
    assert_eq!(r.lines[0], "Concord failed to start: ");
    assert_eq!(
        r.lines[6],
        "4) WSL detected. If GUI apps fail, run `wsl --shutdown`, reopen WSL, then retry."
    );
}

#[test]
fn webview_policy_enables_media() {
    let p = media_policy();
    assert!(p.enable_media_stream);
    assert!(p.enable_media_capabilities);
    assert!(p.enable_mediasource);
    assert!(p.enable_webaudio);
    assert!(p.enable_webrtc);
    assert!(!p.media_playback_requires_user_gesture);
    assert!(p.media_playback_allows_inline);
    assert!(p.grant_permission_requests);
}
