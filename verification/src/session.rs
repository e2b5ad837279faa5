//! The exam server's HTTP API as the client uses it: the session endpoints,
//! how their answers are read, and what a refused launch request tells the
//! participant.

use vstd::prelude::*;
use crate::json::{json_str_field, spec_json_str_field};
use crate::text::{
    lemma_trim_idempotent, blank, chars_of, is_blank, string_of, trim, trim_end_char,
    trim_start_char, trimmed, without_leading, without_trailing,
};
use crate::web_url::{parsed_view, spec_url_parse, WebUrl};
use crate::server_url::text_result;

verus! {

pub open spec fn msg_session_incomplete() -> Seq<char> {
    "metadata sesi belum lengkap"@
}

/// `{api_base}/api/v1/sessions/{session_id}/{action}` with the surrounding
/// white space and the joining slashes trimmed; refused while either the API
/// base or the session id is blank.
pub open spec fn spec_session_api_url(api_base: Seq<char>, session_id: Seq<char>, action: Seq<char>) -> Result<
    Seq<char>,
    Seq<char>,
> {
    let base = trim(api_base);
    let session = trim(session_id);
    if base.len() == 0 || session.len() == 0 {
        Err(msg_session_incomplete())
    } else {
        Ok(
            trim_end_char(base, '/') + "/api/v1/sessions/"@ + session + "/"@ + trim_start_char(
                action,
                '/',
            ),
        )
    }
}

pub fn session_api_url(api_base: &str, session_id: &str, action: &str) -> (r: Result<String, String>)
    ensures
        text_result(r) == spec_session_api_url(api_base@, session_id@, action@),
{
    let base = trimmed(api_base);
    let session = trimmed(session_id);
    if base.unicode_len() == 0 || session.unicode_len() == 0 {
        return Err(String::from_str("metadata sesi belum lengkap"));
    }
    let mut r = string_of(&without_trailing(&chars_of(base.as_str()), '/'));
    r.append("/api/v1/sessions/");
    r.append(session.as_str());
    r.append("/");
    let a = string_of(&without_leading(&chars_of(action), '/'));
    r.append(a.as_str());
    Ok(r)
}

/// An HTTP status in the success class (`StatusCode::is_success`: 200-299).
pub open spec fn is_success_status(code: u16) -> bool {
    200 <= code <= 299
}

pub fn status_is_success(code: u16) -> (r: bool)
    ensures
        r == is_success_status(code),
{
    200 <= code && code <= 299
}

/// The session requests that the client sends.
pub enum SessionRequest {
    Heartbeat,
    End,
}

impl SessionRequest {
    pub open spec fn action_text(self) -> Seq<char> {
        match self {
            SessionRequest::Heartbeat => "heartbeat"@,
            SessionRequest::End => "end"@,
        }
    }

    /// The path segment of the request.
    pub fn action(&self) -> (r: &'static str)
        ensures
            r@ == self.action_text(),
    {
        match self {
            SessionRequest::Heartbeat => "heartbeat",
            SessionRequest::End => "end",
        }
    }
}

/// How a refused session request is reported, for a status shown as `status`.
pub open spec fn session_rejection(kind: SessionRequest, status: Seq<char>) -> Seq<char> {
    match kind {
        SessionRequest::Heartbeat => "heartbeat ditolak server (status "@ + status + ")"@,
        SessionRequest::End => "end-session ditolak server (status "@ + status + ")"@,
    }
}

/// The outcome of a session request that got an answer with status `code`,
/// shown as `status_text`.
pub fn session_request_outcome(kind: SessionRequest, code: u16, status_text: &str) -> (r: Result<
    (),
    String,
>)
    ensures
        is_success_status(code) ==> r is Ok,
        !is_success_status(code) ==> (r matches Err(e) && e@ == session_rejection(kind, status_text@)),
{
    if status_is_success(code) {
        return Ok(());
    }
    let mut e = match kind {
        SessionRequest::Heartbeat => String::from_str("heartbeat ditolak server (status "),
        SessionRequest::End => String::from_str("end-session ditolak server (status "),
    };
    e.append(status_text);
    e.append(")");
    Err(e)
}

/// What a refused launch request tells the participant, for an answer with
/// status `code` (shown as `status`) and body `body`.
pub open spec fn launch_rejection(code: u16, status: Seq<char>, body: Seq<char>) -> Seq<char> {
    let body_message = spec_json_str_field(body, "message"@);
    if code == 403 || code == 404 || code == 405 {
        "Backend belum mendukung form client ExamUQ (status "@ + status
            + "). Update backend terbaru lalu jalankan php artisan optimize:clear, route:clear, config:clear."@
    } else if code == 422 {
        match body_message {
            Some(m) => m,
            None => "Token tidak valid atau ujian tidak aktif di backend."@,
        }
    } else if 500 <= code <= 599 {
        "Backend error (status "@ + status
            + "). Cek log server dan pastikan route launch request aktif."@
    } else {
        match body_message {
            Some(m) => m,
            None => if is_blank(body) {
                "Launch ditolak server (status "@ + status + ")"@
            } else {
                "Launch ditolak server (status "@ + status + "): "@ + trim(body)
            },
        }
    }
}

pub fn launch_rejection_message(code: u16, status_text: &str, body_text: &str) -> (r: String)
    ensures
        r@ == launch_rejection(code, status_text@, body_text@),
{
    let body_message = json_str_field(body_text, "message");
    if code == 403 || code == 404 || code == 405 {
        let mut r = String::from_str("Backend belum mendukung form client ExamUQ (status ");
        r.append(status_text);
        r.append(
            "). Update backend terbaru lalu jalankan php artisan optimize:clear, route:clear, config:clear.",
        );
        r
    } else if code == 422 {
        match body_message {
            Some(m) => m,
            None => String::from_str("Token tidak valid atau ujian tidak aktif di backend."),
        }
    } else if 500 <= code && code <= 599 {
        let mut r = String::from_str("Backend error (status ");
        r.append(status_text);
        r.append("). Cek log server dan pastikan route launch request aktif.");
        r
    } else {
        match body_message {
            Some(m) => m,
            None => {
                let mut r = String::from_str("Launch ditolak server (status ");
                r.append(status_text);
                if blank(body_text) {
                    r.append(")");
                } else {
                    r.append("): ");
                    let t = trimmed(body_text);
                    r.append(t.as_str());
                }
                r
            },
        }
    }
}

pub open spec fn msg_redirect_invalid() -> Seq<char> {
    "URL redirect ujian tidak valid dari backend."@
}

/// The exam URL that an accepted launch request redirects to.
pub fn launch_redirect_url(redirect_url: &str) -> (r: Result<WebUrl, String>)
    ensures
        parsed_view(r) == match spec_url_parse(redirect_url@) {
            Ok(u) => Ok(u),
            Err(_) => Err(msg_redirect_invalid()),
        },
{
    match WebUrl::parse(redirect_url) {
        Ok(u) => Ok(u),
        Err(_) => Err(String::from_str("URL redirect ujian tidak valid dari backend.")),
    }
}


/// White space around the API base or the session id does not change the
/// session address.
pub proof fn law_session_url_ignores_padding(api_base: Seq<char>, session_id: Seq<char>, action: Seq<
    char,
>)
    ensures
        spec_session_api_url(trim(api_base), trim(session_id), action) == spec_session_api_url(
            api_base,
            session_id,
            action,
        ),
{
    lemma_trim_idempotent(api_base);
    lemma_trim_idempotent(session_id);
}

/// What each kind of refusal tells the participant: a missing route
/// (403, 404, 405) and any server error (500 to 599) always get their fixed
/// explanations, whatever the body says; a 422 gives the body's `message`
/// when it has one and the invalid-token explanation otherwise.
pub proof fn law_launch_rejection_by_status(code: u16, status: Seq<char>, body: Seq<char>)
    ensures
        (code == 403 || code == 404 || code == 405) ==> launch_rejection(code, status, body)
            == "Backend belum mendukung form client ExamUQ (status "@ + status
            + "). Update backend terbaru lalu jalankan php artisan optimize:clear, route:clear, config:clear."@,
        500 <= code <= 599 ==> launch_rejection(code, status, body) == "Backend error (status "@
            + status + "). Cek log server dan pastikan route launch request aktif."@,
        code == 422 ==> launch_rejection(code, status, body) == match spec_json_str_field(
            body,
            "message"@,
        ) {
            Some(m) => m,
            None => "Token tidak valid atau ujian tidak aktif di backend."@,
        },
        (code != 403 && code != 404 && code != 405 && code != 422 && !(500 <= code <= 599))
            ==> (spec_json_str_field(body, "message"@) matches Some(m) ==> launch_rejection(
            code,
            status,
            body,
        ) == m),
{
}

} // verus!
