use examuq_client::session::{
    launch_redirect_url, launch_rejection_message, session_api_url, session_request_outcome,
    status_is_success, SessionRequest,
};

#[test]
fn session_url_trims_parts() {
    assert_eq!(
        session_api_url("  https://api.example/// ", " s-1 ", "/heartbeat"),
        Ok("https://api.example/api/v1/sessions/s-1/heartbeat".to_string())
    );
    assert_eq!(
        session_api_url("https://api.example", "s-1", "end"),
        Ok("https://api.example/api/v1/sessions/s-1/end".to_string())
    );
}

#[test]
fn session_url_needs_base_and_session() {
    let msg = Err("metadata sesi belum lengkap".to_string());
    assert_eq!(session_api_url(" ", "s", "end"), msg);
    assert_eq!(session_api_url("https://api", "\n", "end"), msg);
}

#[test]
fn session_url_ignores_padding() {
    assert_eq!(
        session_api_url(" https://a/ ", "  x ", "end"),
        session_api_url("https://a/", "x", "end")
    );
}

#[test]
fn success_statuses() {
    assert!(status_is_success(200));
    assert!(status_is_success(299));
    assert!(!status_is_success(199));
    assert!(!status_is_success(300));
}

#[test]
fn session_outcomes() {
    assert_eq!(session_request_outcome(SessionRequest::Heartbeat, 204, "204 No Content"), Ok(()));
    assert_eq!(
        session_request_outcome(SessionRequest::Heartbeat, 410, "410 Gone"),
        Err("heartbeat ditolak server (status 410 Gone)".to_string())
    );
    assert_eq!(
        session_request_outcome(SessionRequest::End, 500, "500 Internal Server Error"),
        Err("end-session ditolak server (status 500 Internal Server Error)".to_string())
    );
    assert_eq!(SessionRequest::Heartbeat.action(), "heartbeat");
    assert_eq!(SessionRequest::End.action(), "end");
}

#[test]
fn launch_rejection_for_missing_route() {
    for (code, text) in [(403, "403 Forbidden"), (404, "404 Not Found"), (405, "405 Method Not Allowed")] {
        assert_eq!(
            launch_rejection_message(code, text, "{\"message\":\"x\"}"),
            format!("Backend belum mendukung form client ExamUQ (status {text}). Update backend terbaru lalu jalankan php artisan optimize:clear, route:clear, config:clear.")
        );
    }
}

#[test]
fn launch_rejection_for_invalid_token() {
    assert_eq!(
        launch_rejection_message(422, "422 Unprocessable Entity", "{\"message\":\"Token kedaluwarsa\"}"),
        "Token kedaluwarsa"
    );
    assert_eq!(
        launch_rejection_message(422, "422 Unprocessable Entity", "not json"),
        "Token tidak valid atau ujian tidak aktif di backend."
    );
    assert_eq!(
        launch_rejection_message(422, "422 Unprocessable Entity", "{\"message\":5}"),
        "Token tidak valid atau ujian tidak aktif di backend."
    );
}

#[test]
fn launch_rejection_for_server_error() {
    assert_eq!(
        launch_rejection_message(503, "503 Service Unavailable", "{\"message\":\"down\"}"),
        "Backend error (status 503 Service Unavailable). Cek log server dan pastikan route launch request aktif."
    );
}

#[test]
fn launch_rejection_for_other_statuses() {
    assert_eq!(launch_rejection_message(409, "409 Conflict", "{\"message\":\"Sudah login\"}"), "Sudah login");
    assert_eq!(launch_rejection_message(409, "409 Conflict", "   "), "Launch ditolak server (status 409 Conflict)");
    assert_eq!(
        launch_rejection_message(400, "400 Bad Request", "  bad input \n"),
        "Launch ditolak server (status 400 Bad Request): bad input"
    );
}

#[test]
fn launch_redirect_must_be_a_url() {
    let url = launch_redirect_url("https://portal.example/exam?examuq_session_id=1").unwrap();
    assert_eq!(url.host_str(), Some("portal.example".to_string()));
    assert_eq!(
        launch_redirect_url("/relative").err(),
        Some("URL redirect ujian tidak valid dari backend.".to_string())
    );
}
