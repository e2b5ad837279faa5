use examuq_client::updater::{
    get_updater_channel_info, install_update_result, selected_update_channel, updater_target,
    validate_updater_endpoint, UpdaterBuildConfig,
};
use examuq_client::web_url::WebUrl;

fn config(channel: Option<&str>, beta: Option<&str>, template: Option<&str>) -> UpdaterBuildConfig {
    UpdaterBuildConfig {
        update_channel: channel.map(|s| s.to_string()),
        allow_beta: beta.map(|s| s.to_string()),
        endpoint_template: template.map(|s| s.to_string()),
    }
}

#[test]
fn channel_defaults_to_stable() {
    assert_eq!(selected_update_channel(&config(None, None, None)), "stable");
    assert_eq!(selected_update_channel(&config(Some("nightly"), Some("true"), None)), "stable");
    assert_eq!(selected_update_channel(&config(Some(" STABLE "), None, None)), "stable");
}

#[test]
fn beta_needs_permission() {
    assert_eq!(selected_update_channel(&config(Some("beta"), None, None)), "stable");
    assert_eq!(selected_update_channel(&config(Some("beta"), Some("no"), None)), "stable");
    assert_eq!(selected_update_channel(&config(Some(" Beta"), Some(" TRUE "), None)), "beta");
    assert_eq!(selected_update_channel(&config(Some("beta"), Some("1"), None)), "beta");
    assert_eq!(selected_update_channel(&config(Some("beta"), Some("Yes"), None)), "beta");
}

#[test]
fn endpoint_fills_in_channel() {
    let info = get_updater_channel_info(&config(None, None, None));
    assert_eq!(info.channel, "stable");
    assert_eq!(
        info.endpoint,
        "https://updates.examuq.id/{{target}}/{{arch}}/{{current_version}}?channel=stable"
    );
    let custom = get_updater_channel_info(&config(Some("beta"), Some("true"), Some("  https://u.example/{channel}/x?c={channel} ")));
    assert_eq!(custom.endpoint, "https://u.example/beta/x?c=beta");
    let empty = get_updater_channel_info(&config(None, None, Some("   ")));
    assert_eq!(empty.endpoint, "https://updates.examuq.id/{{target}}/{{arch}}/{{current_version}}?channel=stable");
}

#[test]
fn endpoint_must_be_https_with_host() {
    assert_eq!(validate_updater_endpoint(&WebUrl::parse("https://u.example/x").unwrap()), Ok(()));
    assert_eq!(
        validate_updater_endpoint(&WebUrl::parse("http://u.example/x").unwrap()),
        Err("Updater endpoint wajib menggunakan HTTPS.".to_string())
    );
    assert_eq!(
        validate_updater_endpoint(&WebUrl::parse("ftp://u.example/x").unwrap()),
        Err("Updater endpoint wajib menggunakan HTTPS.".to_string())
    );
}

#[test]
fn updater_target_reports_bad_template() {
    let ok = updater_target(&config(None, None, None)).ok().unwrap();
    assert_eq!(ok.channel, "stable");
    assert_eq!(ok.endpoint.host_str(), Some("updates.examuq.id".to_string()));
    let bad = updater_target(&config(None, None, Some("updates/{channel}"))).err().unwrap();
    assert_eq!(bad, "Updater endpoint tidak valid untuk channel stable: relative URL without a base");
    let plain = updater_target(&config(None, None, Some("http://u.example/{channel}"))).err().unwrap();
    assert_eq!(plain, "Updater endpoint wajib menggunakan HTTPS.");
}

#[test]
fn install_result_reports_version() {
    let r = install_update_result("beta".to_string(), Some("1.4.0".to_string()));
    assert!(r.updated);
    assert_eq!(r.version.as_deref(), Some("1.4.0"));
    let none = install_update_result("stable".to_string(), None);
    assert!(!none.updated && none.version.is_none() && none.channel == "stable");
}
