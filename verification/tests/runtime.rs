use examuq_client::overlay::ExamOverlayState;
use examuq_client::runtime::{
    active_overlay_state, begin_open_exam_window, close_app_with_session_end_runtime,
    current_state_payload, device_id_from_millis, end_active_session_if_any,
    ensure_exam_session_heartbeat, enter_exam_mode_runtime, exam_kiosk_is_active,
    exam_window_is_locked, generate_device_id, get_exam_overlay_state, load_client_state,
    normalize_start_exam_payload, open_exam_window, prepare_client_state, release_exam_lock,
    force_return_to_launcher, resolve_direct_launch_url, return_to_launcher_runtime, start_exam, start_kiosk_watchdog,
    stop_exam_session_heartbeat, stop_kiosk_watchdog, store_exam_overlay_state,
    update_overlay_state_from_url, update_settings, ClientState, HeartbeatAction, RuntimeState,
    StartExamPayload,
};
use examuq_client::server_url::DEFAULT_SERVER_BASE_URL;
use examuq_client::web_url::WebUrl;

fn client(url: &str, device: &str) -> ClientState {
    ClientState { server_base_url: url.to_string(), device_id: device.to_string() }
}

fn fresh() -> RuntimeState {
    RuntimeState::new(client("http://10.10.20.2:6997", "desktop-1"))
}

fn overlay(session: &str, api: &str) -> ExamOverlayState {
    ExamOverlayState {
        session_id: session.to_string(),
        display_name: "Ani".to_string(),
        deadline_at: String::new(),
        return_url: "https://return.examuq.invalid/launcher".to_string(),
        api_base: api.to_string(),
    }
}

#[test]
fn new_state_is_unlocked_and_idle() {
    let s = fresh();
    assert!(s.allow_exam_close);
    assert!(!exam_window_is_locked(&s));
    assert!(!exam_kiosk_is_active(&s));
    assert!(s.overlay_state.is_none());
    assert!(!s.heartbeat_running && s.heartbeat_session_key.is_none() && !s.kiosk_watchdog_running);
}

#[test]
fn device_id_is_hex_time() {
    assert_eq!(device_id_from_millis(0), "desktop-0");
    assert_eq!(device_id_from_millis(255), "desktop-ff");
    assert_eq!(device_id_from_millis(1_700_000_000_000), format!("desktop-{:x}", 1_700_000_000_000u128));
    let id = generate_device_id();
    assert!(id.starts_with("desktop-"));
    assert!(id["desktop-".len()..].chars().all(|c| c.is_ascii_hexdigit()));
}

#[test]
fn heartbeat_starts_once_per_session() {
    let mut s = fresh();
    let o = overlay("s1", "https://api.example");
    assert!(matches!(ensure_exam_session_heartbeat(&mut s, &o), HeartbeatAction::Start { stop_previous: false }));
    assert_eq!(s.heartbeat_session_key.as_deref(), Some("https://api.example|s1"));
    assert!(matches!(ensure_exam_session_heartbeat(&mut s, &o), HeartbeatAction::Unchanged));
    let o2 = overlay(" s2 ", " HTTPS://API.example ");
    assert!(matches!(ensure_exam_session_heartbeat(&mut s, &o2), HeartbeatAction::Start { stop_previous: true }));
    assert_eq!(s.heartbeat_session_key.as_deref(), Some("https://api.example|s2"));
}

#[test]
fn heartbeat_needs_session_metadata() {
    let mut s = fresh();
    assert!(matches!(ensure_exam_session_heartbeat(&mut s, &overlay("", "https://api")), HeartbeatAction::Unchanged));
    assert!(matches!(ensure_exam_session_heartbeat(&mut s, &overlay("s", "  ")), HeartbeatAction::Unchanged));
    assert!(!s.heartbeat_running);
}

#[test]
fn stopping_loops_reports_what_ran() {
    let mut s = fresh();
    assert!(!stop_exam_session_heartbeat(&mut s));
    ensure_exam_session_heartbeat(&mut s, &overlay("s", "a"));
    assert!(stop_exam_session_heartbeat(&mut s));
    assert!(s.heartbeat_session_key.is_none());
    assert!(!start_kiosk_watchdog(&mut s));
    assert!(start_kiosk_watchdog(&mut s));
    assert!(stop_kiosk_watchdog(&mut s));
    assert!(!stop_kiosk_watchdog(&mut s));
}

#[test]
fn entering_exam_mode_locks_with_default_overlay() {
    let mut s = fresh();
    ensure_exam_session_heartbeat(&mut s, &overlay("s", "a"));
    let plan = enter_exam_mode_runtime(&mut s, true);
    assert!(plan.stop_heartbeat);
    assert_eq!(plan.start_watchdog, Some(false));
    assert!(exam_window_is_locked(&s));
    assert!(!s.heartbeat_running);
    assert!(s.kiosk_watchdog_running);
    assert_eq!(get_exam_overlay_state(&s).display_name, "Peserta");
    let again = enter_exam_mode_runtime(&mut s, true);
    assert!(!again.stop_heartbeat);
    assert_eq!(again.start_watchdog, Some(true));
}

#[test]
fn entering_exam_mode_without_launcher_starts_no_watchdog() {
    let mut s = fresh();
    let plan = enter_exam_mode_runtime(&mut s, false);
    assert_eq!(plan.start_watchdog, None);
    assert!(exam_window_is_locked(&s));
    assert!(!s.kiosk_watchdog_running);
}

#[test]
fn start_exam_reports_server() {
    let mut s = fresh();
    let (resp, plan) = start_exam(&mut s, true);
    assert!(resp.ok);
    assert_eq!(resp.server_base_url, "http://10.10.20.2:6997");
    assert!(!plan.stop_heartbeat);
    assert_eq!(plan.start_watchdog, Some(false));
    assert!(exam_kiosk_is_active(&s));
    assert!(s.kiosk_watchdog_running);
}

#[test]
fn opening_the_portal_installs_its_overlay() {
    let mut s = fresh();
    let already = begin_open_exam_window(&mut s);
    assert!(!already);
    assert!(exam_window_is_locked(&s));
    let url = WebUrl::parse("https://p/?examuq_session_id=abc&examuq_return_url=r&examuq_api_base=https://api").unwrap();
    let plan = open_exam_window(&mut s, &url, already);
    assert_eq!(plan.overlay.session_id, "abc");
    assert!(matches!(plan.heartbeat, HeartbeatAction::Start { stop_previous: false }));
    assert_eq!(plan.start_watchdog, Some(false));
    assert!(s.kiosk_watchdog_running);
    assert_eq!(active_overlay_state(&s).unwrap().api_base, "https://api");
    // A second launch while in exam mode keeps the watchdog.
    assert!(begin_open_exam_window(&mut s));
    let plain = WebUrl::parse("https://p/").unwrap();
    let plan2 = open_exam_window(&mut s, &plain, true);
    assert_eq!(plan2.overlay.display_name, "Peserta");
    assert!(plan2.start_watchdog.is_none());
    assert!(matches!(plan2.heartbeat, HeartbeatAction::Unchanged));
}

#[test]
fn visited_urls_update_the_overlay() {
    let mut s = fresh();
    s.overlay_state = Some(overlay("s1", ""));
    let url = WebUrl::parse("https://p/#examuq_session_id=s1&examuq_return_url=r&examuq_api_base=https://api").unwrap();
    let update = update_overlay_state_from_url(&mut s, &url).unwrap();
    assert_eq!(update.overlay.display_name, "Ani");
    assert_eq!(update.overlay.api_base, "https://api");
    assert!(matches!(update.heartbeat, HeartbeatAction::Start { .. }));
    let nothing = WebUrl::parse("https://p/?x=1").unwrap();
    assert!(update_overlay_state_from_url(&mut s, &nothing).is_none());
    assert_eq!(s.overlay_state.as_ref().unwrap().api_base, "https://api");
}

#[test]
fn store_then_read_overlay() {
    let mut s = fresh();
    let merged = store_exam_overlay_state(&mut s, overlay("s7", ""));
    assert_eq!(merged.session_id, "s7");
    assert_eq!(get_exam_overlay_state(&s).session_id, "s7");
}

#[test]
fn returning_to_launcher_ends_session_and_unlocks() {
    let mut s = fresh();
    enter_exam_mode_runtime(&mut s, true);
    s.overlay_state = Some(overlay("s1", "https://api"));
    ensure_exam_session_heartbeat(&mut s, &overlay("s1", "https://api"));
    let plan = return_to_launcher_runtime(&mut s, true).ok().unwrap();
    assert_eq!(plan.session_to_end.unwrap().session_id, "s1");
    assert!(plan.stop_heartbeat && plan.stop_watchdog);
    assert!(!exam_window_is_locked(&s));
    assert!(s.overlay_state.is_none());
    let again = force_return_to_launcher(&mut s);
    assert!(again.session_to_end.is_none() && !again.stop_heartbeat && !again.stop_watchdog);
}

#[test]
fn session_end_needs_metadata() {
    let mut s = fresh();
    assert!(end_active_session_if_any(&s).is_none());
    s.overlay_state = Some(overlay("s1", " "));
    assert!(end_active_session_if_any(&s).is_none());
    s.overlay_state = Some(overlay("s1", "https://api"));
    assert_eq!(end_active_session_if_any(&s).unwrap().session_id, "s1");
}

#[test]
fn shutdown_keeps_lock_until_released() {
    let mut s = fresh();
    enter_exam_mode_runtime(&mut s, true);
    s.overlay_state = Some(overlay("s1", "https://api"));
    let plan = close_app_with_session_end_runtime(&mut s);
    assert!(plan.session_to_end.is_some());
    assert!(exam_window_is_locked(&s));
    release_exam_lock(&mut s);
    assert!(!exam_window_is_locked(&s));
}

#[test]
fn settings_store_normalised_address() {
    let mut s = fresh();
    assert_eq!(update_settings(&mut s, "192.168.0.9:8080/x"), Ok(()));
    assert_eq!(s.client_state.server_base_url, "http://192.168.0.9:8080");
    assert_eq!(update_settings(&mut s, " "), Err("URL server wajib diisi.".to_string()));
    assert_eq!(s.client_state.server_base_url, "http://192.168.0.9:8080");
    let p = current_state_payload(&s, "1.2.3");
    assert_eq!((p.server_base_url.as_str(), p.device_id.as_str(), p.app_version.as_str()), ("http://192.168.0.9:8080", "desktop-1", "1.2.3"));
}

#[test]
fn direct_launch_uses_given_or_stored_server() {
    let s = fresh();
    let stored = resolve_direct_launch_url(&s, None).unwrap();
    assert_eq!(stored.as_string(), "http://10.10.20.2:6997/?source=client&client_type=desktop_client&device_id=desktop-1");
    let given = resolve_direct_launch_url(&s, Some("exam.example.com")).unwrap();
    assert_eq!(given.as_string(), "https://exam.example.com/?source=client&client_type=desktop_client&device_id=desktop-1");
    assert_eq!(resolve_direct_launch_url(&s, Some("")).err(), Some("URL server wajib diisi.".to_string()));
}

#[test]
fn start_payload_is_trimmed_and_checked_in_order() {
    let p = |a: &str, b: &str, c: &str| StartExamPayload {
        display_name: a.to_string(),
        class_room: b.to_string(),
        token_global: c.to_string(),
    };
    let ok = normalize_start_exam_payload(&p(" Ani ", "XII IPA 1 ", " TOK123")).ok().unwrap();
    assert_eq!((ok.display_name.as_str(), ok.class_room.as_str(), ok.token_global.as_str()), ("Ani", "XII IPA 1", "TOK123"));
    assert_eq!(normalize_start_exam_payload(&p(" ", "", "")).err(), Some("Nama peserta wajib diisi.".to_string()));
    assert_eq!(normalize_start_exam_payload(&p("A", "\t", "")).err(), Some("Kelas wajib diisi.".to_string()));
    assert_eq!(normalize_start_exam_payload(&p("A", "B", " ")).err(), Some("Token ujian wajib diisi.".to_string()));
}

#[test]
fn loaded_state_falls_back_to_default() {
    let c = load_client_state(None);
    assert_eq!(c.server_base_url, "http://10.10.20.2:6996");
    assert_eq!(c.server_base_url, DEFAULT_SERVER_BASE_URL);
    assert!(c.device_id.starts_with("desktop-"));
    let kept = load_client_state(Some(client("https://x", "d")));
    assert_eq!((kept.server_base_url.as_str(), kept.device_id.as_str()), ("https://x", "d"));
}

#[test]
fn startup_migrates_legacy_server() {
    let legacy = prepare_client_state(client("http://10.10.20.2:6996", "desktop-1"));
    assert_eq!(legacy.server_base_url, "http://10.10.20.2:6996");
    assert_eq!(legacy.device_id, "desktop-1");
    let hosted = prepare_client_state(client("https://kreasai.com/app", "x"));
    assert_eq!(hosted.server_base_url, DEFAULT_SERVER_BASE_URL);
    let broken = prepare_client_state(client("   ", " "));
    assert_eq!(broken.server_base_url, DEFAULT_SERVER_BASE_URL);
    assert!(broken.device_id.starts_with("desktop-"));
    let current = prepare_client_state(client("http://10.10.20.2:6997", "abc"));
    assert_eq!(current.server_base_url, "http://10.10.20.2:6997");
    let kept = prepare_client_state(client("exam.example.com/", "abc"));
    assert_eq!(kept.server_base_url, "https://exam.example.com");
}

#[test]
fn returning_without_launcher_changes_nothing() {
    let mut s = fresh();
    enter_exam_mode_runtime(&mut s, true);
    s.overlay_state = Some(overlay("s1", "https://api"));
    assert_eq!(
        return_to_launcher_runtime(&mut s, false).err(),
        Some("Main window tidak ditemukan.".to_string())
    );
    assert!(exam_window_is_locked(&s));
    assert!(s.kiosk_watchdog_running);
    assert_eq!(s.overlay_state.as_ref().unwrap().session_id, "s1");
    let plan = force_return_to_launcher(&mut s);
    assert!(plan.session_to_end.is_some() && plan.stop_watchdog);
    assert!(!exam_window_is_locked(&s));
}
