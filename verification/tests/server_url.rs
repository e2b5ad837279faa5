use examuq_client::server_url::{
    admin_url, build_exam_launch_url, build_launch_request_url, normalize_base_url,
    should_migrate_to_default_server_url, DEFAULT_SERVER_BASE_URL, LEGACY_SERVER_BASE_URL,
};

#[test]
fn normalize_rejects_blank_address() {
    assert_eq!(normalize_base_url("   "), Err("URL server wajib diisi.".to_string()));
    assert_eq!(normalize_base_url(""), Err("URL server wajib diisi.".to_string()));
}

#[test]
fn normalize_keeps_explicit_protocol_and_drops_path() {
    assert_eq!(
        normalize_base_url("  http://10.10.20.2:6997/ujian?x=1#top  "),
        Ok("http://10.10.20.2:6997".to_string())
    );
    assert_eq!(normalize_base_url("https://Exam.Example.com/"), Ok("https://exam.example.com".to_string()));
}

#[test]
fn normalize_drops_default_port() {
    assert_eq!(normalize_base_url("https://example.com:443"), Ok("https://example.com".to_string()));
    assert_eq!(normalize_base_url("http://example.com:8080"), Ok("http://example.com:8080".to_string()));
}

#[test]
fn normalize_gives_plain_http_to_local_hosts() {
    assert_eq!(normalize_base_url("10.10.20.2:6997"), Ok("http://10.10.20.2:6997".to_string()));
    assert_eq!(normalize_base_url("192.168.1.5"), Ok("http://192.168.1.5".to_string()));
    assert_eq!(normalize_base_url("172.16.0.1:80"), Ok("http://172.16.0.1".to_string()));
    assert_eq!(normalize_base_url("169.254.3.4:9000"), Ok("http://169.254.3.4:9000".to_string()));
    assert_eq!(normalize_base_url("127.0.0.1:3000"), Ok("http://127.0.0.1:3000".to_string()));
    assert_eq!(normalize_base_url("localhost:8000"), Ok("http://localhost:8000".to_string()));
    assert_eq!(normalize_base_url("LOCALHOST"), Ok("http://localhost".to_string()));
    assert_eq!(normalize_base_url("exam-server.local:6997"), Ok("http://exam-server.local:6997".to_string()));
}

#[test]
fn normalize_gives_https_to_other_hosts() {
    assert_eq!(normalize_base_url("kreasai.com"), Ok("https://kreasai.com".to_string()));
    assert_eq!(normalize_base_url("172.32.0.1"), Ok("https://172.32.0.1".to_string()));
    assert_eq!(normalize_base_url("8.8.8.8"), Ok("https://8.8.8.8".to_string()));
    assert_eq!(normalize_base_url("192.169.0.1"), Ok("https://192.169.0.1".to_string()));
}

#[test]
fn normalize_reports_malformed_address() {
    let msg = "Format URL server tidak valid. Contoh: http://10.10.20.2:6997".to_string();
    assert_eq!(normalize_base_url("exam server"), Err(msg.clone()));
    assert_eq!(normalize_base_url("http://"), Err(msg));
}

#[test]
fn migration_covers_legacy_default_and_hosts() {
    assert!(should_migrate_to_default_server_url(LEGACY_SERVER_BASE_URL));
    assert!(should_migrate_to_default_server_url("https://kreasai.com"));
    assert!(should_migrate_to_default_server_url("https://ujian.KREASAI.com:8443"));
    assert!(!should_migrate_to_default_server_url("https://notkreasai.com"));
    assert!(should_migrate_to_default_server_url(DEFAULT_SERVER_BASE_URL));
    assert!(!should_migrate_to_default_server_url("http://10.10.20.2:6997"));
    assert!(!should_migrate_to_default_server_url("not a url"));
}

#[test]
fn launch_url_carries_client_identification() {
    let url = build_exam_launch_url("http://10.10.20.2:6997/old/path?a=b#frag", "desktop-19a2b").unwrap();
    assert_eq!(
        url.as_string(),
        "http://10.10.20.2:6997/?source=client&client_type=desktop_client&device_id=desktop-19a2b"
    );
    assert_eq!(url.path(), "/");
    assert_eq!(url.fragment(), None);
}

#[test]
fn launch_url_encodes_device_id() {
    let url = build_exam_launch_url("https://exam.example.com", "a b&c").unwrap();
    assert_eq!(url.query(), Some("source=client&client_type=desktop_client&device_id=a+b%26c".to_string()));
}

#[test]
fn launch_url_refuses_bad_server() {
    assert_eq!(build_exam_launch_url("no scheme", "d").err(), Some("URL server tidak valid.".to_string()));
}

#[test]
fn launch_request_url_joins_api_path() {
    let url = build_launch_request_url("http://10.10.20.2:6997///").unwrap();
    assert_eq!(url.as_string(), "http://10.10.20.2:6997/api/v1/launch/request");
    assert_eq!(build_launch_request_url("::").err(), Some("URL launch API tidak valid.".to_string()));
}

#[test]
fn admin_url_carries_client_identification() {
    assert_eq!(
        admin_url("http://10.10.20.2:6997/", "desktop-1"),
        Ok("http://10.10.20.2:6997/admin?source=client&client_type=desktop_client&device_id=desktop-1".to_string())
    );
    assert_eq!(admin_url("bad", "x"), Err("URL server tidak valid.".to_string()));
}
