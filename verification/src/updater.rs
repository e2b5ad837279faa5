//! The update channel and endpoint, fixed when the client is built.
//!
//! The channel is `stable` unless the build asked for `beta` and allowed it;
//! the endpoint is the build's template (or the default one) with the channel
//! filled in, and it must be an `https` URL with a host.

use vstd::prelude::*;
use crate::server_url::host_or_empty;
use crate::text::{
    ascii_lower, chars_of, lowercase, replace_all, replace_text, same_text, string_of, trim,
    trimmed,
};
use crate::web_url::{spec_url_parse, UrlModel, WebUrl};

verus! {

pub const DEFAULT_UPDATE_CHANNEL: &'static str = "stable";

pub const DEFAULT_UPDATE_ENDPOINT_TEMPLATE: &'static str =
    "https://updates.examuq.id/{{target}}/{{arch}}/{{current_version}}?channel={channel}";

/// The updater settings that the build environment supplied, when it did.
pub struct UpdaterBuildConfig {
    pub update_channel: Option<String>,
    pub allow_beta: Option<String>,
    pub endpoint_template: Option<String>,
}

pub open spec fn opt_view(o: Option<String>) -> Option<Seq<char>> {
    match o {
        Some(s) => Some(s@),
        None => None,
    }
}

/// Whether the build allowed the beta channel (`1`, `true` or `yes`, in any
/// case, with surrounding white space).
pub open spec fn beta_allowed(allow_beta: Option<Seq<char>>) -> bool {
    match allow_beta {
        Some(v) => {
            let n = ascii_lower(trim(v));
            n == "1"@ || n == "true"@ || n == "yes"@
        },
        None => false,
    }
}

/// The update channel of a build.
pub open spec fn spec_selected_channel(update_channel: Option<Seq<char>>, allow_beta: Option<Seq<char>>) -> Seq<char> {
    let raw = match update_channel {
        Some(v) => v,
        None => DEFAULT_UPDATE_CHANNEL@,
    };
    let n = ascii_lower(trim(raw));
    if n == "beta"@ && !beta_allowed(allow_beta) {
        DEFAULT_UPDATE_CHANNEL@
    } else if n == "stable"@ || n == "beta"@ {
        n
    } else {
        DEFAULT_UPDATE_CHANNEL@
    }
}

fn normalized_setting(v: &str) -> (r: Vec<char>)
    ensures
        r@ == ascii_lower(trim(v@)),
{
    lowercase(&chars_of(trimmed(v).as_str()))
}

fn beta_is_allowed(allow_beta: &Option<String>) -> (r: bool)
    ensures
        r == beta_allowed(opt_view(*allow_beta)),
{
    match allow_beta {
        Some(v) => {
            let n = normalized_setting(v.as_str());
            same_text(&n, "1") || same_text(&n, "true") || same_text(&n, "yes")
        },
        None => false,
    }
}

pub fn selected_update_channel(config: &UpdaterBuildConfig) -> (r: String)
    ensures
        r@ == spec_selected_channel(opt_view(config.update_channel), opt_view(config.allow_beta)),
{
    let allow_beta = beta_is_allowed(&config.allow_beta);
    let n = match &config.update_channel {
        Some(v) => normalized_setting(v.as_str()),
        None => normalized_setting(DEFAULT_UPDATE_CHANNEL),
    };
    if same_text(&n, "beta") && !allow_beta {
        return String::from_str(DEFAULT_UPDATE_CHANNEL);
    }
    if same_text(&n, "stable") || same_text(&n, "beta") {
        string_of(&n)
    } else {
        String::from_str(DEFAULT_UPDATE_CHANNEL)
    }
}

/// The channel is always `stable` or `beta`, and `beta` only when the build
/// allowed it.
pub proof fn law_channel_is_stable_or_allowed_beta(update_channel: Option<Seq<char>>, allow_beta: Option<
    Seq<char>,
>)
    ensures
        spec_selected_channel(update_channel, allow_beta) == "stable"@ || spec_selected_channel(
            update_channel,
            allow_beta,
        ) == "beta"@,
        spec_selected_channel(update_channel, allow_beta) == "beta"@ ==> beta_allowed(allow_beta),
{
    reveal_strlit("stable");
    reveal_strlit("beta");
    assert("stable"@.len() == 6 && "beta"@.len() == 4);
}

/// The endpoint template: the build's, trimmed, unless it is empty.
pub open spec fn endpoint_template(template: Option<Seq<char>>) -> Seq<char> {
    match template {
        Some(v) => if trim(v).len() > 0 {
            trim(v)
        } else {
            DEFAULT_UPDATE_ENDPOINT_TEMPLATE@
        },
        None => DEFAULT_UPDATE_ENDPOINT_TEMPLATE@,
    }
}

/// The endpoint of a channel: the template with each `{channel}` replaced.
pub open spec fn spec_endpoint_for_channel(template: Option<Seq<char>>, channel: Seq<char>) -> Seq<char> {
    replace_all(endpoint_template(template), "{channel}"@, channel)
}

pub fn updater_endpoint_for_channel(config: &UpdaterBuildConfig, channel: &str) -> (r: String)
    ensures
        r@ == spec_endpoint_for_channel(opt_view(config.endpoint_template), channel@),
{
    let template = match &config.endpoint_template {
        Some(v) => {
            let t = trimmed(v.as_str());
            if t.unicode_len() > 0 {
                t
            } else {
                String::from_str(DEFAULT_UPDATE_ENDPOINT_TEMPLATE)
            }
        },
        None => String::from_str(DEFAULT_UPDATE_ENDPOINT_TEMPLATE),
    };
    let pattern = chars_of("{channel}");
    proof {
        reveal_strlit("{channel}");
    }
    string_of(&replace_text(&chars_of(template.as_str()), &pattern, &chars_of(channel)))
}

pub open spec fn msg_endpoint_not_https() -> Seq<char> {
    "Updater endpoint wajib menggunakan HTTPS."@
}

pub open spec fn msg_endpoint_without_host() -> Seq<char> {
    "Updater endpoint wajib memiliki host yang valid."@
}

/// An update endpoint must be an `https` URL with a non-empty host.
pub open spec fn endpoint_validity(u: UrlModel) -> Result<(), Seq<char>> {
    if u.scheme != "https"@ {
        Err(msg_endpoint_not_https())
    } else if host_or_empty(u).len() == 0 {
        Err(msg_endpoint_without_host())
    } else {
        Ok(())
    }
}

pub open spec fn unit_result(r: Result<(), String>) -> Result<(), Seq<char>> {
    match r {
        Ok(_) => Ok(()),
        Err(e) => Err(e@),
    }
}

pub fn validate_updater_endpoint(endpoint: &WebUrl) -> (r: Result<(), String>)
    ensures
        unit_result(r) == endpoint_validity(endpoint@),
{
    if !same_text(&chars_of(endpoint.scheme().as_str()), "https") {
        return Err(String::from_str("Updater endpoint wajib menggunakan HTTPS."));
    }
    let empty_host = match endpoint.host_str() {
        Some(h) => h.unicode_len() == 0,
        None => true,
    };
    if empty_host {
        return Err(String::from_str("Updater endpoint wajib memiliki host yang valid."));
    }
    Ok(())
}

pub struct UpdaterChannelInfo {
    pub channel: String,
    pub endpoint: String,
}

pub fn get_updater_channel_info(config: &UpdaterBuildConfig) -> (r: UpdaterChannelInfo)
    ensures
        r.channel@ == spec_selected_channel(opt_view(config.update_channel), opt_view(config.allow_beta)),
        r.endpoint@ == spec_endpoint_for_channel(opt_view(config.endpoint_template), r.channel@),
{
    let channel = selected_update_channel(config);
    let endpoint = updater_endpoint_for_channel(config, channel.as_str());
    UpdaterChannelInfo { channel, endpoint }
}

/// Where the updater looks for updates, and on which channel.
pub struct UpdaterTarget {
    pub channel: String,
    pub endpoint: WebUrl,
}

/// The checked update endpoint of a build, or why it cannot be used.
pub open spec fn spec_updater_target(c: UpdaterBuildConfig) -> Result<(Seq<char>, UrlModel), Seq<char>> {
    let channel = spec_selected_channel(opt_view(c.update_channel), opt_view(c.allow_beta));
    let text = spec_endpoint_for_channel(opt_view(c.endpoint_template), channel);
    match spec_url_parse(text) {
        Err(e) => Err("Updater endpoint tidak valid untuk channel "@ + channel + ": "@ + e),
        Ok(u) => match endpoint_validity(u) {
            Err(m) => Err(m),
            Ok(_) => Ok((channel, u)),
        },
    }
}

pub open spec fn target_view(r: Result<UpdaterTarget, String>) -> Result<(Seq<char>, UrlModel), Seq<char>> {
    match r {
        Ok(t) => Ok((t.channel@, t.endpoint@)),
        Err(e) => Err(e@),
    }
}

/// The update endpoint that checking and installing use.
pub fn updater_target(config: &UpdaterBuildConfig) -> (r: Result<UpdaterTarget, String>)
    ensures
        target_view(r) == spec_updater_target(*config),
{
    let channel = selected_update_channel(config);
    let endpoint = updater_endpoint_for_channel(config, channel.as_str());
    let url = match WebUrl::parse(endpoint.as_str()) {
        Ok(u) => u,
        Err(e) => {
            let mut m = String::from_str("Updater endpoint tidak valid untuk channel ");
            m.append(channel.as_str());
            m.append(": ");
            m.append(e.as_str());
            return Err(m);
        },
    };
    match validate_updater_endpoint(&url) {
        Ok(()) => Ok(UpdaterTarget { channel, endpoint: url }),
        Err(m) => Err(m),
    }
}

pub struct InstallUpdateResult {
    pub updated: bool,
    pub version: Option<String>,
    pub channel: String,
}

/// The report of an install run: updated exactly when a version was installed.
pub fn install_update_result(channel: String, installed_version: Option<String>) -> (r:
    InstallUpdateResult)
    ensures
        r.updated == installed_version is Some,
        r.version == installed_version,
        r.channel == channel,
{
    InstallUpdateResult { updated: installed_version.is_some(), version: installed_version, channel }
}

} // verus!
