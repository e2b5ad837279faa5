//! The exam server's base URL: how a typed address is normalised, which saved
//! addresses move to the current default, and the URLs built from it.

use vstd::prelude::*;
use crate::ipv4::{digits_end, ipv4_octets, parse_ipv4};
use crate::text::{
    ascii_lower, chars_of, decimal, ends_with, has_prefix, has_suffix, lowercase, push_decimal,
    same_text, starts_with, string_of, trim, trim_end_char, trimmed, without_trailing,
};
use crate::web_url::{
    spec_url_append_pair, spec_url_parse, spec_url_set_fragment, spec_url_set_path,
    spec_url_set_query, parsed_view, UrlModel, WebUrl,
};

verus! {

pub const DEFAULT_SERVER_BASE_URL: &'static str = "http://10.10.20.2:6996";

pub const LEGACY_SERVER_BASE_URL: &'static str = "http://10.10.20.2:6996";

/// Text of an `Ok`/`Err` string result.
pub open spec fn text_result(r: Result<String, String>) -> Result<Seq<char>, Seq<char>> {
    match r {
        Ok(s) => Ok(s@),
        Err(e) => Err(e@),
    }
}

pub open spec fn host_or_empty(u: UrlModel) -> Seq<char> {
    match u.host {
        Some(h) => h,
        None => Seq::empty(),
    }
}

/// Loopback, link-local and private (RFC 1918) IPv4 ranges.
pub open spec fn is_private_ipv4(a: u8, b: u8) -> bool {
    ||| a == 10
    ||| a == 127
    ||| (a == 172 && 16 <= b <= 31)
    ||| (a == 192 && b == 168)
    ||| (a == 169 && b == 254)
}

/// Hosts that a bare server address reaches over plain `http://`: the local
/// machine, `.local` names and private IPv4 addresses.
pub open spec fn prefers_plain_http(host: Seq<char>) -> bool {
    ||| host == "localhost"@
    ||| ends_with(host, ".local"@)
    ||| match ipv4_octets(host) {
        Some((a, b, _, _)) => is_private_ipv4(a, b),
        None => false,
    }
}

pub open spec fn port_suffix(port: Option<u16>) -> Seq<char> {
    match port {
        Some(p) => ":"@ + decimal(p as nat),
        None => Seq::empty(),
    }
}

/// `scheme://host[:port]` of a URL.
pub open spec fn origin_text(u: UrlModel) -> Seq<char> {
    u.scheme + "://"@ + host_or_empty(u) + port_suffix(u.port)
}

/// The address with a protocol: kept when it names `http://` or `https://`,
/// otherwise given `http://` for local hosts and `https://` for the rest.
pub open spec fn with_protocol(t: Seq<char>) -> Option<Seq<char>> {
    if starts_with(t, "http://"@) || starts_with(t, "https://"@) {
        Some(t)
    } else {
        match spec_url_parse("http://"@ + t) {
            Ok(u) => Some(
                if prefers_plain_http(ascii_lower(host_or_empty(u))) {
                    "http://"@ + t
                } else {
                    "https://"@ + t
                },
            ),
            Err(_) => None,
        }
    }
}

pub open spec fn msg_server_url_required() -> Seq<char> {
    "URL server wajib diisi."@
}

pub open spec fn msg_server_url_malformed() -> Seq<char> {
    "Format URL server tidak valid. Contoh: http://10.10.20.2:6997"@
}

pub open spec fn msg_server_url_invalid() -> Seq<char> {
    "URL server tidak valid."@
}

/// What a typed server address normalises to: the origin of the URL it denotes.
pub open spec fn spec_normalize_base_url(raw: Seq<char>) -> Result<Seq<char>, Seq<char>> {
    let t = trim(raw);
    if t.len() == 0 {
        Err(msg_server_url_required())
    } else {
        match with_protocol(t) {
            None => Err(msg_server_url_malformed()),
            Some(w) => match spec_url_parse(w) {
                Ok(u) => Ok(origin_text(u)),
                Err(_) => Err(msg_server_url_malformed()),
            },
        }
    }
}

fn host_text(u: &WebUrl) -> (r: String)
    ensures
        r@ == host_or_empty(u@),
{
    match u.host_str() {
        Some(h) => h,
        None => String::new(),
    }
}

fn plain_http_host(host: &Vec<char>) -> (r: bool)
    ensures
        r == prefers_plain_http(host@),
{
    if same_text(host, "localhost") {
        return true;
    }
    if has_suffix(host, ".local") {
        return true;
    }
    match parse_ipv4(host) {
        Some((a, b, _, _)) => a == 10 || a == 127 || (a == 172 && 16 <= b && b <= 31) || (a == 192
            && b == 168) || (a == 169 && b == 254),
        None => false,
    }
}

fn prefixed(prefix: &str, t: &str) -> (r: String)
    ensures
        r@ == prefix@ + t@,
{
    let mut r = String::from_str(prefix);
    r.append(t);
    r
}

/// `scheme://host[:port]` of `u`.
fn origin_of(u: &WebUrl) -> (r: String)
    ensures
        r@ == origin_text(u@),
{
    let mut r = u.scheme();
    r.append("://");
    let h = host_text(u);
    r.append(h.as_str());
    match u.port() {
        Some(p) => {
            r.append(":");
            push_decimal(&mut r, p as u64);
        },
        None => {},
    }
    r
}

/// Normalises a server address typed by an operator: trims it, adds a
/// protocol when it has none, and keeps only `scheme://host[:port]`.
pub fn normalize_base_url(raw: &str) -> (r: Result<String, String>)
    ensures
        text_result(r) == spec_normalize_base_url(raw@),
{
    let t = trimmed(raw);
    if t.unicode_len() == 0 {
        return Err(String::from_str("URL server wajib diisi."));
    }
    let tv = chars_of(t.as_str());
    let with_protocol = if has_prefix(&tv, "http://") || has_prefix(&tv, "https://") {
        t
    } else {
        let provisional = prefixed("http://", t.as_str());
        let parsed = match WebUrl::parse(provisional.as_str()) {
            Ok(u) => u,
            Err(_) => {
                return Err(
                    String::from_str("Format URL server tidak valid. Contoh: http://10.10.20.2:6997"),
                )
            },
        };
        let host = lowercase(&chars_of(host_text(&parsed).as_str()));
        if plain_http_host(&host) {
            prefixed("http://", t.as_str())
        } else {
            prefixed("https://", t.as_str())
        }
    };
    match WebUrl::parse(with_protocol.as_str()) {
        Ok(u) => Ok(origin_of(&u)),
        Err(_) => Err(
            String::from_str("Format URL server tidak valid. Contoh: http://10.10.20.2:6997"),
        ),
    }
}


/// A normalised address normalises to itself, wherever the `url` crate
/// reads it back as the origin it spells (same scheme, host and port) and its
/// host carries no surrounding white space: the two facts about the crate
/// that this rests on, which its named results do not give.
pub proof fn law_normalized_address_is_fixed(raw: Seq<char>, s: Seq<char>, v: UrlModel)
    requires
        spec_normalize_base_url(raw) == Ok::<Seq<char>, Seq<char>>(s),
        spec_url_parse(s) == Ok::<UrlModel, Seq<char>>(v),
        origin_text(v) == s,
        starts_with(s, "http://"@) || starts_with(s, "https://"@),
        trim(s) == s,
    ensures
        spec_normalize_base_url(s) == Ok::<Seq<char>, Seq<char>>(s),
{
    reveal_strlit("http://");
    reveal_strlit("https://");
    assert(s.len() > 0);
}

/// Hosts that earlier releases pointed at.
pub open spec fn is_legacy_host(host: Seq<char>) -> bool {
    host == "kreasai.com"@ || ends_with(host, ".kreasai.com"@)
}

/// A saved server address that is moved to the current default: the earlier
/// default address, or any URL on a host of earlier releases.
pub open spec fn spec_should_migrate(base_url: Seq<char>) -> bool {
    ||| base_url == LEGACY_SERVER_BASE_URL@
    ||| match spec_url_parse(base_url) {
        Ok(u) => match u.host {
            Some(h) => is_legacy_host(ascii_lower(h)),
            None => false,
        },
        Err(_) => false,
    }
}

pub fn should_migrate_to_default_server_url(base_url: &str) -> (r: bool)
    ensures
        r == spec_should_migrate(base_url@),
{
    if same_text(&chars_of(base_url), LEGACY_SERVER_BASE_URL) {
        return true;
    }
    if let Ok(parsed) = WebUrl::parse(base_url) {
        if let Some(host) = parsed.host_str() {
            let h = lowercase(&chars_of(host.as_str()));
            return same_text(&h, "kreasai.com") || has_suffix(&h, ".kreasai.com");
        }
    }
    false
}

/// The exam portal entry of a server: its root path, no query or fragment,
/// and the client's identification pairs.
pub open spec fn launch_url_model(base: UrlModel, device_id: Seq<char>) -> UrlModel {
    let cleared = spec_url_set_fragment(
        spec_url_set_query(spec_url_set_path(base, "/"@), None),
        None,
    );
    spec_url_append_pair(
        spec_url_append_pair(
            spec_url_append_pair(cleared, "source"@, "client"@),
            "client_type"@,
            "desktop_client"@,
        ),
        "device_id"@,
        device_id,
    )
}

/// The portal entry of the server at `base`, or why there is none.
pub open spec fn launch_url_for(base: Seq<char>, device_id: Seq<char>) -> Result<UrlModel, Seq<char>> {
    match spec_url_parse(base) {
        Ok(b) => Ok(launch_url_model(b, device_id)),
        Err(_) => Err(msg_server_url_invalid()),
    }
}

pub fn build_exam_launch_url(server_base_url: &str, device_id: &str) -> (r: Result<WebUrl, String>)
    ensures
        parsed_view(r) == launch_url_for(server_base_url@, device_id@),
{
    let mut launch_url = match WebUrl::parse(server_base_url) {
        Ok(u) => u,
        Err(_) => return Err(String::from_str("URL server tidak valid.")),
    };
    launch_url.set_path("/");
    launch_url.set_query(None);
    launch_url.set_fragment(None);
    launch_url.append_query_pair("source", "client");
    launch_url.append_query_pair("client_type", "desktop_client");
    launch_url.append_query_pair("device_id", device_id);
    Ok(launch_url)
}

/// `base` without trailing `/`, followed by `suffix`.
fn joined(base: &str, suffix: &str) -> (r: String)
    ensures
        r@ == trim_end_char(base@, '/') + suffix@,
{
    let mut r = string_of(&without_trailing(&chars_of(base), '/'));
    r.append(suffix);
    r
}

pub open spec fn msg_launch_api_invalid() -> Seq<char> {
    "URL launch API tidak valid."@
}

/// The launch request endpoint of a server.
pub open spec fn launch_request_text(server_base_url: Seq<char>) -> Seq<char> {
    trim_end_char(server_base_url, '/') + "/api/v1/launch/request"@
}

pub fn build_launch_request_url(server_base_url: &str) -> (r: Result<WebUrl, String>)
    ensures
        parsed_view(r) == match spec_url_parse(launch_request_text(server_base_url@)) {
            Ok(u) => Ok(u),
            Err(_) => Err(msg_launch_api_invalid()),
        },
{
    let text = joined(server_base_url, "/api/v1/launch/request");
    match WebUrl::parse(text.as_str()) {
        Ok(u) => Ok(u),
        Err(_) => Err(String::from_str("URL launch API tidak valid.")),
    }
}

/// The administration page of a server, with the client's identification pairs.
pub open spec fn admin_url_model(base: UrlModel, device_id: Seq<char>) -> UrlModel {
    spec_url_append_pair(
        spec_url_append_pair(
            spec_url_append_pair(base, "source"@, "client"@),
            "client_type"@,
            "desktop_client"@,
        ),
        "device_id"@,
        device_id,
    )
}

/// The address that the administration page is opened at.
pub fn admin_url(server_base_url: &str, device_id: &str) -> (r: Result<String, String>)
    ensures
        r is Ok <==> spec_url_parse(trim_end_char(server_base_url@, '/') + "/admin"@) is Ok,
        r matches Ok(a) ==> (spec_url_parse(trim_end_char(server_base_url@, '/') + "/admin"@) matches Ok(
            b,
        ) && a@ == admin_url_model(b, device_id@).serialization),
        r matches Err(e) ==> e@ == msg_server_url_invalid(),
{
    let text = joined(server_base_url, "/admin");
    let mut admin = match WebUrl::parse(text.as_str()) {
        Ok(u) => u,
        Err(_) => return Err(String::from_str("URL server tidak valid.")),
    };
    admin.append_query_pair("source", "client");
    admin.append_query_pair("client_type", "desktop_client");
    admin.append_query_pair("device_id", device_id);
    Ok(admin.as_string())
}

/// Every host written as an IPv4 address in the private ranges 10.0.0.0/8,
/// 172.16.0.0/12 and 192.168.0.0/16, loopback 127.0.0.0/8 or link-local
/// 169.254.0.0/16 is reached over plain `http://`; no other IPv4 address is,
/// unless its text ends in `.local`.
pub proof fn law_private_ipv4_hosts_use_plain_http(host: Seq<char>)
    ensures
        ipv4_octets(host) matches Some((a, b, _, _)) ==> {
            &&& a == 10 ==> prefers_plain_http(host)
            &&& a == 127 ==> prefers_plain_http(host)
            &&& (a == 172 && 16 <= b && b <= 31) ==> prefers_plain_http(host)
            &&& (a == 192 && b == 168) ==> prefers_plain_http(host)
            &&& (a == 169 && b == 254) ==> prefers_plain_http(host)
            &&& (!ends_with(host, ".local"@) && a != 10 && a != 127 && !(a == 172 && 16 <= b
                && b <= 31) && !(a == 192 && b == 168) && !(a == 169 && b == 254))
                ==> !prefers_plain_http(host)
        },
{
    reveal_strlit("localhost");
    if host == "localhost"@ {
        assert(host[0] == 'l');
        assert(ipv4_octets(host) is None) by {
            assert(digits_end(host, 0) == 0);
        }
    }
}

} // verus!
