use examuq_client::shell::{
    android_permissions_are_ready, enter_exam_mode_script, exam_loading_script, exam_state_script,
    heartbeat_step, navigation_action, new_window_action, watchdog_step, HeartbeatStep, WatchdogStep, page_load_state, return_to_launcher_script,
    shortcut_action, NavigationAction, NewWindowAction, PermissionGate, ShortcutAction,
    ShortcutKey,
};
use examuq_client::web_url::WebUrl;

#[test]
fn loading_script_quotes_message() {
    assert_eq!(
        exam_loading_script(true, "Memuat \"portal\"..."),
        "window.__EXAMUQ_SET_EXAM_LOADING__ && window.__EXAMUQ_SET_EXAM_LOADING__(true, \"Memuat \\\"portal\\\"...\");"
    );
    assert_eq!(
        exam_loading_script(false, "siap"),
        "window.__EXAMUQ_SET_EXAM_LOADING__ && window.__EXAMUQ_SET_EXAM_LOADING__(false, \"siap\");"
    );
}

#[test]
fn state_and_return_scripts() {
    assert_eq!(
        exam_state_script("{\"sessionId\":\"1\"}"),
        "window.__EXAMUQ_SYNC_EXAM_STATE__ && window.__EXAMUQ_SYNC_EXAM_STATE__({\"sessionId\":\"1\"});"
    );
    assert_eq!(
        return_to_launcher_script("selesai\n"),
        "window.__EXAMUQ_RETURN_TO_LAUNCHER__ && window.__EXAMUQ_RETURN_TO_LAUNCHER__(\"selesai\\n\");"
    );
    assert_eq!(enter_exam_mode_script(), "window.__EXAMUQ_ENTER_EXAM_MODE__ && window.__EXAMUQ_ENTER_EXAM_MODE__();");
}

#[test]
fn page_load_messages() {
    assert_eq!(page_load_state(true), (true, "Memuat halaman ujian..."));
    assert_eq!(page_load_state(false), (false, "Portal ujian siap."));
}

#[test]
fn shortcuts_in_exam_mode() {
    assert!(matches!(shortcut_action(ShortcutKey::SecretExit, true), ShortcutAction::CloseApp));
    assert!(matches!(shortcut_action(ShortcutKey::FunctionKey, true), ShortcutAction::Refocus { lock: true }));
    assert!(matches!(shortcut_action(ShortcutKey::Refresh, true), ShortcutAction::Refocus { lock: false }));
    assert!(matches!(shortcut_action(ShortcutKey::Escape, true), ShortcutAction::Refocus { lock: true }));
    assert!(matches!(shortcut_action(ShortcutKey::Other, true), ShortcutAction::ReturnToLauncher));
}

#[test]
fn shortcuts_outside_exam_mode() {
    assert!(matches!(shortcut_action(ShortcutKey::SecretExit, false), ShortcutAction::Nothing));
    assert!(matches!(shortcut_action(ShortcutKey::FunctionKey, false), ShortcutAction::Refocus { lock: false }));
    assert!(matches!(shortcut_action(ShortcutKey::Escape, false), ShortcutAction::Nothing));
    assert!(matches!(shortcut_action(ShortcutKey::Other, false), ShortcutAction::Nothing));
}

#[test]
fn permission_markers() {
    let m = |v: &[Option<&str>]| v.iter().map(|o| o.map(|s| s.to_string())).collect::<Vec<_>>();
    assert!(matches!(android_permissions_are_ready(&m(&[None, None])), PermissionGate::Unmarked));
    assert!(matches!(android_permissions_are_ready(&m(&[])), PermissionGate::Unmarked));
    assert!(matches!(android_permissions_are_ready(&m(&[Some("0"), Some(" 1\n")])), PermissionGate::Ready));
    assert!(matches!(android_permissions_are_ready(&m(&[Some("0"), None])), PermissionGate::NotReady));
    assert!(matches!(android_permissions_are_ready(&m(&[Some("yes")])), PermissionGate::NotReady));
    assert!(android_permissions_are_ready(&m(&[None])).is_ready());
    assert!(!android_permissions_are_ready(&m(&[Some("0")])).is_ready());
}

#[test]
fn script_arguments_escape_control_characters() {
    assert_eq!(
        return_to_launcher_script("a\u{1}\u{8}\t\u{c}\r\\\u{7f}é"),
        "window.__EXAMUQ_RETURN_TO_LAUNCHER__ && window.__EXAMUQ_RETURN_TO_LAUNCHER__(\"a\\u0001\\b\\t\\f\\r\\\\\u{7f}é\");"
    );
    assert_eq!(
        return_to_launcher_script("\u{1f}"),
        "window.__EXAMUQ_RETURN_TO_LAUNCHER__ && window.__EXAMUQ_RETURN_TO_LAUNCHER__(\"\\u001f\");"
    );
}

#[test]
fn navigation_to_return_address_goes_back() {
    let back = WebUrl::parse("https://return.examuq.invalid/launcher?message=Selesai").unwrap();
    match navigation_action(&back) {
        NavigationAction::ReturnToLauncher { message } => assert_eq!(message, "Selesai"),
        NavigationAction::Allow => panic!("return address must go back"),
    }
    let portal = WebUrl::parse("https://portal.example/q/1").unwrap();
    assert!(matches!(navigation_action(&portal), NavigationAction::Allow));
}

#[test]
fn new_windows_stay_in_the_exam() {
    let back = WebUrl::parse("https://return.examuq.invalid/launcher").unwrap();
    match new_window_action(&back) {
        NewWindowAction::ReturnToLauncher { message } => {
            assert_eq!(message, "Mode ujian dihentikan dan kembali ke halaman awal.")
        }
        NewWindowAction::OpenInExam => panic!("return address must go back"),
    }
    let popup = WebUrl::parse("https://other.example/").unwrap();
    assert!(matches!(new_window_action(&popup), NewWindowAction::OpenInExam));
}

#[test]
fn loop_steps() {
    assert!(matches!(heartbeat_step(true), HeartbeatStep::Stop));
    assert!(matches!(heartbeat_step(false), HeartbeatStep::SendThenWait { seconds: 10 }));
    assert!(matches!(watchdog_step(true, true, true), WatchdogStep::Stop));
    assert!(matches!(watchdog_step(false, false, true), WatchdogStep::Stop));
    assert!(matches!(watchdog_step(false, true, false), WatchdogStep::Idle { millis: 300 }));
    assert!(matches!(watchdog_step(false, true, true), WatchdogStep::Enforce { millis: 350 }));
}
