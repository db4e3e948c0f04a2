use grok_desktop::launch::{
    is_dev_server_url, offline_ui_step, page_finished_step, watchdog_step, FinishedAction,
    FinishedProbe, LaunchStatus, OfflineAction, OfflineEvent, WatchdogAction,
};
use grok_desktop::tray::{
    toggle_window_action, tray_menu_action, tray_menu_items, tray_tooltip, TrayAction,
    WindowAction,
};

#[test]
fn dev_server_urls_are_recognised_in_any_case() {
    assert!(is_dev_server_url("http://127.0.0.1:1420/"));
    assert!(is_dev_server_url("HTTP://LOCALHOST:1420/index.html"));
    assert!(!is_dev_server_url("http://tauri.localhost/"));
    assert!(!is_dev_server_url("http://127.0.0.1:1421/"));
}

#[test]
fn page_start_and_retry_update_the_status() {
    let mut status = LaunchStatus::default();
    status.mark_ready();
    let s = status.page_started("http://127.0.0.1:1420/");
    assert!(!s.ui_ready && !s.success);
    assert_eq!(s.phase, "Loading from dev server\u{2026} (http://127.0.0.1:1420/)");
    let s = status.page_started("http://tauri.localhost/");
    assert_eq!(s.phase, "Loading UI\u{2026} (http://tauri.localhost/)");
    status.mark_failed("boom");
    let s = status.retry_load();
    assert!(!s.ui_ready && !s.load_failed);
    assert_eq!(s.phase, "Retrying load\u{2026}");
    assert_eq!(s.last_error.as_deref(), Some("boom"));
}

#[test]
fn finished_dev_pages_are_probed_before_anything_else() {
    let dev = "http://127.0.0.1:1420/";
    assert!(matches!(page_finished_step(dev, FinishedProbe::Unchecked), FinishedAction::ProbeDevServer));
    match page_finished_step(dev, FinishedProbe::DevServer(false)) {
        FinishedAction::SwitchOffline(Some(p)) => {
            assert_eq!(p, "Dev server refused connection \u{2014} switching to offline UI\u{2026}")
        }
        _ => panic!("expected the offline fallback"),
    }
    match page_finished_step(dev, FinishedProbe::DevServer(true)) {
        FinishedAction::Loaded(p) => assert_eq!(p, "Page loaded \u{2014} starting app\u{2026}"),
        _ => panic!("expected a loaded page"),
    }
}

#[test]
fn finished_error_pages_fall_back_or_fail() {
    let bad = "chrome-error://chromewebdata/";
    assert!(matches!(page_finished_step(bad, FinishedProbe::Unchecked), FinishedAction::ProbeForErrorPage));
    assert!(matches!(page_finished_step(bad, FinishedProbe::ErrorPage(false)), FinishedAction::SwitchOffline(None)));
    match page_finished_step(bad, FinishedProbe::ErrorPage(true)) {
        FinishedAction::Fail { reason, detail } => {
            assert_eq!(reason, "WebView could not open chrome-error://chromewebdata/");
            assert_eq!(detail, "Failed URL: chrome-error://chromewebdata/");
        }
        _ => panic!("expected a failure"),
    }
}

#[test]
fn offline_fallback_steps() {
    match offline_ui_step(&OfflineEvent::Showing("http://tauri.localhost/".into())) {
        OfflineAction::Announce(p) => assert_eq!(p, "Loading offline UI\u{2026}"),
        _ => panic!("expected an announcement"),
    }
    assert!(matches!(
        offline_ui_step(&OfflineEvent::Showing("http://localhost:1420/".into())),
        OfflineAction::ProbeDevServer
    ));
    match offline_ui_step(&OfflineEvent::DevServerProbed(true)) {
        OfflineAction::Announce(p) => assert_eq!(p, "Connected to dev server on 127.0.0.1:1420"),
        _ => panic!("expected an announcement"),
    }
    match offline_ui_step(&OfflineEvent::DevServerProbed(false)) {
        OfflineAction::Navigate { phase, url } => {
            assert_eq!(phase, "Dev server not running \u{2014} switching to offline UI (build\\)\u{2026}");
            assert_eq!(url, "http://tauri.localhost/");
        }
        _ => panic!("expected navigation"),
    }
    match offline_ui_step(&OfflineEvent::NavigateFailed("denied".into())) {
        OfflineAction::Fail { reason, detail } => {
            assert_eq!(
                reason,
                "Dev server down on 127.0.0.1:1420 and offline navigate failed: denied. Run Grok-Desktop.bat / npm start (release build)."
            );
            assert_eq!(detail, "127.0.0.1:1420 refused connection, and offline UI navigate failed: denied");
        }
        _ => panic!("expected a failure"),
    }
    match offline_ui_step(&OfflineEvent::Navigated("http://tauri.localhost/".into())) {
        OfflineAction::Announce(p) => assert_eq!(p, "Navigated to offline UI (http://tauri.localhost/)"),
        _ => panic!("expected an announcement"),
    }
}

#[test]
fn watchdog_gives_up_only_when_the_ui_never_became_ready() {
    let mut status = LaunchStatus::default();
    assert!(matches!(watchdog_step(&status, true), WatchdogAction::RetryOffline));
    match watchdog_step(&status, false) {
        WatchdogAction::Fail(reason) => assert!(reason.starts_with("Timed out waiting for the frontend to boot. Close this app")),
        _ => panic!("expected a time-out"),
    }
    status.mark_failed("x");
    assert!(matches!(watchdog_step(&status, true), WatchdogAction::Stop));
    status.mark_ready();
    assert!(matches!(watchdog_step(&status, false), WatchdogAction::Stop));
}

#[test]
fn tray_menu_entries_and_actions() {
    let items = tray_menu_items();
    let ids: Vec<&str> = items.iter().map(|(id, _)| id.as_str()).collect();
    assert_eq!(ids, ["show", "new_chat", "toggle_yolo", "quit"]);
    assert_eq!(items[3].1, "Quit Grok Desktop");
    assert_eq!(tray_tooltip(), "Grok Desktop \u{2014} left-click to show/hide");
    assert!(matches!(tray_menu_action("show"), TrayAction::ToggleWindow));
    match tray_menu_action("toggle_yolo") {
        TrayAction::EmitAndShow(e) => assert_eq!(e, "tray-toggle-yolo"),
        _ => panic!("expected an event"),
    }
    match tray_menu_action("new_chat") {
        TrayAction::EmitAndShow(e) => assert_eq!(e, "tray-new-chat"),
        _ => panic!("expected an event"),
    }
    assert!(matches!(tray_menu_action("quit"), TrayAction::Quit));
    assert!(matches!(tray_menu_action("other"), TrayAction::Nothing));
    assert!(matches!(toggle_window_action(Some(true)), WindowAction::Hide));
    assert!(matches!(toggle_window_action(Some(false)), WindowAction::Show));
    assert!(matches!(toggle_window_action(None), WindowAction::Show));
}
