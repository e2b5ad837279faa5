//! The client's runtime state and the exam-mode state machine.
//!
//! The desktop shell owns windows, threads and files; each transition here
//! changes the state and tells the shell what to do next (which background
//! loop to stop or start, which session to end on the server).

use vstd::prelude::*;
use crate::overlay::{
    default_exam_overlay_state, default_overlay, merge_exam_overlay_state, merge_overlay,
    opt_overlay_view, overlay_of_url, parse_overlay_state_from_url, ExamOverlayState, OverlayView,
};
use crate::server_url::{
    build_exam_launch_url, launch_url_for, normalize_base_url, spec_normalize_base_url,
    spec_should_migrate, should_migrate_to_default_server_url,
    DEFAULT_SERVER_BASE_URL,
};
use crate::text::{ascii_lower, blank, chars_of, hex, is_blank, lowercase, push_hex, string_of, trim, trimmed};
use crate::web_url::{parsed_view, UrlModel, WebUrl};

verus! {

/// What the client keeps between runs.
pub struct ClientState {
    pub server_base_url: String,
    pub device_id: String,
}

/// What the launcher page shows.
pub struct LauncherStateResponse {
    pub server_base_url: String,
    pub device_id: String,
    pub app_version: String,
}

pub struct StartExamResponse {
    pub ok: bool,
    pub server_base_url: String,
}

/// The participant's form on the launcher.
pub struct StartExamPayload {
    pub display_name: String,
    pub class_room: String,
    pub token_global: String,
}

/// The state shared by the shell's commands and callbacks.
///
/// `heartbeat_running` and `kiosk_watchdog_running` say whether the shell's
/// session heartbeat loop and kiosk watchdog loop have been started and not
/// told to stop.
pub struct RuntimeState {
    pub client_state: ClientState,
    pub allow_exam_close: bool,
    pub overlay_state: Option<ExamOverlayState>,
    pub heartbeat_running: bool,
    pub heartbeat_session_key: Option<String>,
    pub kiosk_watchdog_running: bool,
}

pub struct RuntimeView {
    pub server_base_url: Seq<char>,
    pub device_id: Seq<char>,
    pub allow_exam_close: bool,
    pub overlay: Option<OverlayView>,
    pub heartbeat_running: bool,
    pub heartbeat_key: Option<Seq<char>>,
    pub watchdog_running: bool,
}

pub open spec fn opt_text_view(o: Option<String>) -> Option<Seq<char>> {
    match o {
        Some(s) => Some(s@),
        None => None,
    }
}

impl View for RuntimeState {
    type V = RuntimeView;

    open spec fn view(&self) -> RuntimeView {
        RuntimeView {
            server_base_url: self.client_state.server_base_url@,
            device_id: self.client_state.device_id@,
            allow_exam_close: self.allow_exam_close,
            overlay: opt_overlay_view(self.overlay_state),
            heartbeat_running: self.heartbeat_running,
            heartbeat_key: opt_text_view(self.heartbeat_session_key),
            watchdog_running: self.kiosk_watchdog_running,
        }
    }
}

impl RuntimeView {
    /// A heartbeat loop runs exactly when a session key is recorded for it.
    pub open spec fn wf(self) -> bool {
        self.heartbeat_running <==> self.heartbeat_key is Some
    }

    /// The exam window may not be closed.
    pub open spec fn locked(self) -> bool {
        !self.allow_exam_close
    }
}

impl RuntimeState {
    /// The state right after start-up: nothing locked, no exam, no loops.
    pub fn new(client_state: ClientState) -> (r: RuntimeState)
        ensures
            r@.server_base_url == client_state.server_base_url@,
            r@.device_id == client_state.device_id@,
            r@.allow_exam_close,
            r@.overlay is None,
            !r@.heartbeat_running,
            r@.heartbeat_key is None,
            !r@.watchdog_running,
            r@.wf(),
    {
        RuntimeState {
            client_state,
            allow_exam_close: true,
            overlay_state: None,
            heartbeat_running: false,
            heartbeat_session_key: None,
            kiosk_watchdog_running: false,
        }
    }
}

/// Whether the exam window is locked (closing it is refused).
pub fn exam_window_is_locked(state: &RuntimeState) -> (r: bool)
    ensures
        r == state@.locked(),
{
    !state.allow_exam_close
}

/// Whether kiosk mode is active: the same as the exam window being locked.
pub fn exam_kiosk_is_active(state: &RuntimeState) -> (r: bool)
    ensures
        r == state@.locked(),
{
    exam_window_is_locked(state)
}

/// Tells the heartbeat loop to stop and forgets its session; the result says
/// whether a running loop has to be signalled.
pub fn stop_exam_session_heartbeat(state: &mut RuntimeState) -> (signal: bool)
    ensures
        signal == old(state)@.heartbeat_running,
        final(state)@ == (RuntimeView {
            heartbeat_running: false,
            heartbeat_key: None,
            ..old(state)@
        }),
{
    let signal = state.heartbeat_running;
    state.heartbeat_running = false;
    state.heartbeat_session_key = None;
    signal
}

/// Tells the kiosk watchdog to stop; the result says whether a running
/// watchdog has to be signalled.
pub fn stop_kiosk_watchdog(state: &mut RuntimeState) -> (signal: bool)
    ensures
        signal == old(state)@.watchdog_running,
        final(state)@ == (RuntimeView { watchdog_running: false, ..old(state)@ }),
{
    let signal = state.kiosk_watchdog_running;
    state.kiosk_watchdog_running = false;
    signal
}

/// Records a freshly started kiosk watchdog; the result says whether the one
/// running before has to be signalled to stop.
pub fn start_kiosk_watchdog(state: &mut RuntimeState) -> (stop_previous: bool)
    ensures
        stop_previous == old(state)@.watchdog_running,
        final(state)@ == (RuntimeView { watchdog_running: true, ..old(state)@ }),
{
    let stop_previous = stop_kiosk_watchdog(state);
    state.kiosk_watchdog_running = true;
    stop_previous
}

/// Locks the exam window.
pub fn activate_exam_kiosk(state: &mut RuntimeState)
    ensures
        final(state)@ == (RuntimeView { allow_exam_close: false, ..old(state)@ }),
{
    state.allow_exam_close = false;
}

/// Allows the exam window to close again.
pub fn release_exam_lock(state: &mut RuntimeState)
    ensures
        final(state)@ == (RuntimeView { allow_exam_close: true, ..old(state)@ }),
{
    state.allow_exam_close = true;
}

/// The key that identifies the session a heartbeat loop reports for.
pub open spec fn session_key(o: OverlayView) -> Seq<char> {
    ascii_lower(trim(o.api_base)) + "|"@ + trim(o.session_id)
}

/// What the shell does about the heartbeat loop.
pub enum HeartbeatAction {
    /// Leave the loop as it is.
    Unchanged,
    /// Start a loop for the overlay's session, after signalling the running
    /// one to stop when `stop_previous` holds.
    Start { stop_previous: bool },
}

/// A heartbeat loop runs for a session once its API base and id are known;
/// a session that already has its loop keeps it.
pub open spec fn heartbeat_needed(s: RuntimeView, o: OverlayView) -> bool {
    !is_blank(o.api_base) && !is_blank(o.session_id) && s.heartbeat_key != Some(session_key(o))
}

pub open spec fn after_heartbeat(s: RuntimeView, o: OverlayView) -> RuntimeView {
    if heartbeat_needed(s, o) {
        RuntimeView { heartbeat_running: true, heartbeat_key: Some(session_key(o)), ..s }
    } else {
        s
    }
}

pub open spec fn heartbeat_action(s: RuntimeView, o: OverlayView) -> HeartbeatAction {
    if heartbeat_needed(s, o) {
        HeartbeatAction::Start { stop_previous: s.heartbeat_running }
    } else {
        HeartbeatAction::Unchanged
    }
}

fn session_key_of(overlay: &ExamOverlayState) -> (r: String)
    ensures
        r@ == session_key(overlay@),
{
    let mut r = string_of(&lowercase(&chars_of(trimmed(overlay.api_base.as_str()).as_str())));
    r.append("|");
    let s = trimmed(overlay.session_id.as_str());
    r.append(s.as_str());
    r
}

/// Makes sure a heartbeat loop reports for the overlay's session.
pub fn ensure_exam_session_heartbeat(state: &mut RuntimeState, overlay: &ExamOverlayState) -> (r:
    HeartbeatAction)
    ensures
        r == heartbeat_action(old(state)@, overlay@),
        final(state)@ == after_heartbeat(old(state)@, overlay@),
{
    let key = session_key_of(overlay);
    if blank(overlay.api_base.as_str()) || blank(overlay.session_id.as_str()) {
        return HeartbeatAction::Unchanged;
    }
    let same = match &state.heartbeat_session_key {
        Some(existing) => *existing == key,
        None => false,
    };
    if same {
        return HeartbeatAction::Unchanged;
    }
    let stop_previous = stop_exam_session_heartbeat(state);
    state.heartbeat_running = true;
    state.heartbeat_session_key = Some(key);
    HeartbeatAction::Start { stop_previous }
}

/// The overlay currently shown, if any.
pub fn active_overlay_state(state: &RuntimeState) -> (r: Option<ExamOverlayState>)
    ensures
        opt_overlay_view(r) == state@.overlay,
{
    match &state.overlay_state {
        Some(o) => Some(
            ExamOverlayState {
                session_id: o.session_id.clone(),
                display_name: o.display_name.clone(),
                deadline_at: o.deadline_at.clone(),
                return_url: o.return_url.clone(),
                api_base: o.api_base.clone(),
            },
        ),
        None => None,
    }
}

/// The overlay the launcher page asks for: the current one or the default.
/// The overlay that reading the state gives: the stored one, or the default.
pub open spec fn overlay_read(s: RuntimeView) -> OverlayView {
    match s.overlay {
        Some(o) => o,
        None => default_overlay(),
    }
}

pub fn get_exam_overlay_state(state: &RuntimeState) -> (r: ExamOverlayState)
    ensures
        r@ == overlay_read(state@),
{
    match active_overlay_state(state) {
        Some(o) => o,
        None => default_exam_overlay_state(),
    }
}

/// The state after merging an incoming overlay into the stored one.
pub open spec fn after_store(s: RuntimeView, o: OverlayView) -> RuntimeView {
    RuntimeView { overlay: Some(merge_overlay(s.overlay, o)), ..s }
}

/// Merges an overlay into the current one and keeps the result.
pub fn store_exam_overlay_state(state: &mut RuntimeState, overlay: ExamOverlayState) -> (r:
    ExamOverlayState)
    ensures
        r@ == merge_overlay(old(state)@.overlay, overlay@),
        final(state)@ == after_store(old(state)@, overlay@),
{
    let current = active_overlay_state(state);
    let merged = merge_exam_overlay_state(current, overlay);
    state.overlay_state = active_overlay_state_of(&merged);
    merged
}

fn active_overlay_state_of(o: &ExamOverlayState) -> (r: Option<ExamOverlayState>)
    ensures
        opt_overlay_view(r) == Some(o@),
{
    Some(
        ExamOverlayState {
            session_id: o.session_id.clone(),
            display_name: o.display_name.clone(),
            deadline_at: o.deadline_at.clone(),
            return_url: o.return_url.clone(),
            api_base: o.api_base.clone(),
        },
    )
}


/// What the shell does after a portal URL has been visited.
pub struct OverlayUpdate {
    /// The overlay to show.
    pub overlay: ExamOverlayState,
    pub heartbeat: HeartbeatAction,
}

pub open spec fn with_overlay(s: RuntimeView, o: OverlayView) -> RuntimeView {
    RuntimeView { overlay: Some(o), ..s }
}

/// Takes in the overlay that a visited portal URL carries, if any, and keeps
/// the heartbeat loop on its session.
pub fn update_overlay_state_from_url(state: &mut RuntimeState, url: &WebUrl) -> (r: Option<
    OverlayUpdate,
>)
    ensures
        match overlay_of_url(url@) {
            None => r is None && final(state)@ == old(state)@,
            Some(p) => {
                let m = merge_overlay(old(state)@.overlay, p);
                let s1 = with_overlay(old(state)@, m);
                &&& r matches Some(u) && u.overlay@ == m && u.heartbeat == heartbeat_action(s1, m)
                &&& final(state)@ == after_heartbeat(s1, m)
            },
        },
{
    match parse_overlay_state_from_url(url) {
        Some(parsed) => {
            let overlay = store_exam_overlay_state(state, parsed);
            let heartbeat = ensure_exam_session_heartbeat(state, &overlay);
            Some(OverlayUpdate { overlay, heartbeat })
        },
        None => None,
    }
}

/// The state once exam mode is entered from the launcher: locked, showing the
/// default overlay, with no heartbeat loop and, once the launcher window has
/// been found, a kiosk watchdog.
pub open spec fn after_enter_exam_mode(s: RuntimeView, launcher_found: bool) -> RuntimeView {
    RuntimeView {
        allow_exam_close: false,
        overlay: Some(default_overlay()),
        heartbeat_running: false,
        heartbeat_key: None,
        watchdog_running: if launcher_found {
            true
        } else {
            s.watchdog_running
        },
        ..s
    }
}

/// What the shell does when exam mode is entered.
pub struct EnterExamPlan {
    /// Whether a running heartbeat loop has to be signalled to stop.
    pub stop_heartbeat: bool,
    /// Present when a kiosk watchdog is to be started; it then says whether
    /// the one running before has to be signalled to stop.
    pub start_watchdog: Option<bool>,
}

/// Enters exam mode: stops the heartbeat, locks the window and shows the
/// default overlay; when the launcher window was found, the kiosk is locked
/// and its watchdog started (without it, entering fails there).
pub fn enter_exam_mode_runtime(state: &mut RuntimeState, launcher_found: bool) -> (r: EnterExamPlan)
    ensures
        r.stop_heartbeat == old(state)@.heartbeat_running,
        r.start_watchdog == if launcher_found {
            Some(old(state)@.watchdog_running)
        } else {
            None
        },
        final(state)@ == after_enter_exam_mode(old(state)@, launcher_found),
{
    let stop_heartbeat = stop_exam_session_heartbeat(state);
    state.allow_exam_close = false;
    state.overlay_state = Some(default_exam_overlay_state());
    let start_watchdog = if launcher_found {
        activate_exam_kiosk(state);
        Some(start_kiosk_watchdog(state))
    } else {
        None
    };
    EnterExamPlan { stop_heartbeat, start_watchdog }
}

/// Starts opening the exam window: locks it and says whether exam mode was
/// already on.
pub fn begin_open_exam_window(state: &mut RuntimeState) -> (already_in_exam_mode: bool)
    ensures
        already_in_exam_mode == old(state)@.locked(),
        final(state)@ == (RuntimeView { allow_exam_close: false, ..old(state)@ }),
{
    let already = exam_window_is_locked(state);
    if !already {
        state.allow_exam_close = false;
    }
    already
}

/// What the shell does when the exam portal opens.
pub struct OpenExamPlan {
    /// The overlay to show.
    pub overlay: ExamOverlayState,
    pub heartbeat: HeartbeatAction,
    /// Present when a kiosk watchdog is to be started; it then says whether
    /// the one running before has to be signalled to stop.
    pub start_watchdog: Option<bool>,
}

/// The overlay a launch URL opens with.
pub open spec fn launch_overlay(u: UrlModel) -> OverlayView {
    match overlay_of_url(u) {
        Some(o) => o,
        None => default_overlay(),
    }
}

pub open spec fn after_open_exam_window(s: RuntimeView, u: UrlModel, already: bool) -> RuntimeView {
    let s2 = after_heartbeat(with_overlay(s, launch_overlay(u)), launch_overlay(u));
    if already {
        s2
    } else {
        RuntimeView { allow_exam_close: false, watchdog_running: true, ..s2 }
    }
}

/// Installs the overlay of the launch URL, keeps the heartbeat loop on its
/// session and, when exam mode was not on, locks the kiosk and starts its
/// watchdog.
pub fn open_exam_window(state: &mut RuntimeState, launch_url: &WebUrl, already_in_exam_mode: bool) -> (r:
    OpenExamPlan)
    ensures
        r.overlay@ == launch_overlay(launch_url@),
        r.heartbeat == heartbeat_action(
            with_overlay(old(state)@, launch_overlay(launch_url@)),
            launch_overlay(launch_url@),
        ),
        r.start_watchdog == if already_in_exam_mode {
            None
        } else {
            Some(old(state)@.watchdog_running)
        },
        final(state)@ == after_open_exam_window(old(state)@, launch_url@, already_in_exam_mode),
{
    let overlay = match parse_overlay_state_from_url(launch_url) {
        Some(o) => o,
        None => default_exam_overlay_state(),
    };
    state.overlay_state = active_overlay_state_of(&overlay);
    let heartbeat = ensure_exam_session_heartbeat(state, &overlay);
    let start_watchdog = if !already_in_exam_mode {
        activate_exam_kiosk(state);
        Some(start_kiosk_watchdog(state))
    } else {
        None
    };
    OpenExamPlan { overlay, heartbeat, start_watchdog }
}

/// The session to close on the server: the shown overlay's, when it names
/// both a session and an API base.
pub open spec fn session_to_end(s: RuntimeView) -> Option<OverlayView> {
    match s.overlay {
        Some(o) => if !is_blank(o.session_id) && !is_blank(o.api_base) {
            Some(o)
        } else {
            None
        },
        None => None,
    }
}

pub fn end_active_session_if_any(state: &RuntimeState) -> (r: Option<ExamOverlayState>)
    ensures
        opt_overlay_view(r) == session_to_end(state@),
{
    match active_overlay_state(state) {
        Some(o) => {
            if blank(o.session_id.as_str()) || blank(o.api_base.as_str()) {
                None
            } else {
                Some(o)
            }
        },
        None => None,
    }
}

/// What the shell does when leaving exam mode.
pub struct LeavePlan {
    /// The session to end on the server.
    pub session_to_end: Option<ExamOverlayState>,
    /// Whether a running heartbeat loop has to be signalled to stop.
    pub stop_heartbeat: bool,
    /// Whether a running kiosk watchdog has to be signalled to stop.
    pub stop_watchdog: bool,
}

/// The state back at the launcher: unlocked, no overlay, no loops.
pub open spec fn after_return_to_launcher(s: RuntimeView) -> RuntimeView {
    RuntimeView {
        allow_exam_close: true,
        overlay: None,
        heartbeat_running: false,
        heartbeat_key: None,
        watchdog_running: false,
        ..s
    }
}

pub open spec fn msg_launcher_missing() -> Seq<char> {
    "Main window tidak ditemukan."@
}

/// Leaves exam mode for the launcher, which the shell has found: nothing
/// changes and nothing is ended when the launcher window is missing.
pub fn return_to_launcher_runtime(state: &mut RuntimeState, launcher_found: bool) -> (r: Result<
    LeavePlan,
    String,
>)
    ensures
        launcher_found ==> (r matches Ok(plan) && opt_overlay_view(plan.session_to_end)
            == session_to_end(old(state)@) && plan.stop_heartbeat == old(state)@.heartbeat_running
            && plan.stop_watchdog == old(state)@.watchdog_running && final(state)@
            == after_return_to_launcher(old(state)@)),
        !launcher_found ==> (r matches Err(e) && e@ == msg_launcher_missing() && final(state)@
            == old(state)@),
{
    if !launcher_found {
        return Err(String::from_str("Main window tidak ditemukan."));
    }
    Ok(force_return_to_launcher(state))
}

/// Leaves exam mode whether or not the launcher window is there (the shell's
/// best-effort fallback).
pub fn force_return_to_launcher(state: &mut RuntimeState) -> (r: LeavePlan)
    ensures
        opt_overlay_view(r.session_to_end) == session_to_end(old(state)@),
        r.stop_heartbeat == old(state)@.heartbeat_running,
        r.stop_watchdog == old(state)@.watchdog_running,
        final(state)@ == after_return_to_launcher(old(state)@),
{
    state.allow_exam_close = true;
    let session_to_end = end_active_session_if_any(state);
    let stop_heartbeat = stop_exam_session_heartbeat(state);
    let stop_watchdog = stop_kiosk_watchdog(state);
    state.overlay_state = None;
    LeavePlan { session_to_end, stop_heartbeat, stop_watchdog }
}

/// The state while the client shuts down: no loops; the lock is released by
/// [`release_exam_lock`] once the end of the session has been sent.
pub open spec fn after_shutdown(s: RuntimeView) -> RuntimeView {
    RuntimeView { heartbeat_running: false, heartbeat_key: None, watchdog_running: false, ..s }
}

/// Ends the session and stops the loops before the client exits.
pub fn close_app_with_session_end_runtime(state: &mut RuntimeState) -> (r: LeavePlan)
    ensures
        opt_overlay_view(r.session_to_end) == session_to_end(old(state)@),
        r.stop_heartbeat == old(state)@.heartbeat_running,
        r.stop_watchdog == old(state)@.watchdog_running,
        final(state)@ == after_shutdown(old(state)@),
{
    let session_to_end = end_active_session_if_any(state);
    let stop_heartbeat = stop_exam_session_heartbeat(state);
    let stop_watchdog = stop_kiosk_watchdog(state);
    LeavePlan { session_to_end, stop_heartbeat, stop_watchdog }
}

/// What the launcher page shows of the state.
pub fn current_state_payload(state: &RuntimeState, app_version: &str) -> (r: LauncherStateResponse)
    ensures
        r.server_base_url@ == state@.server_base_url,
        r.device_id@ == state@.device_id,
        r.app_version@ == app_version@,
{
    LauncherStateResponse {
        server_base_url: state.client_state.server_base_url.clone(),
        device_id: state.client_state.device_id.clone(),
        app_version: String::from_str(app_version),
    }
}

/// Stores a new server address, normalised; a refused address changes nothing.
pub fn update_settings(state: &mut RuntimeState, server_base_url: &str) -> (r: Result<(), String>)
    ensures
        match spec_normalize_base_url(server_base_url@) {
            Ok(n) => r is Ok && final(state)@ == (RuntimeView { server_base_url: n, ..old(state)@ }),
            Err(e) => r matches Err(m) && m@ == e && final(state)@ == old(state)@,
        },
{
    match normalize_base_url(server_base_url) {
        Ok(n) => {
            state.client_state.server_base_url = n;
            Ok(())
        },
        Err(e) => Err(e),
    }
}

/// The portal entry that a direct launch opens: of the given server address
/// (normalised), or of the stored one.
pub open spec fn direct_launch(s: RuntimeView, server_base_url: Option<Seq<char>>) -> Result<
    UrlModel,
    Seq<char>,
> {
    match server_base_url {
        Some(raw) => match spec_normalize_base_url(raw) {
            Ok(b) => launch_url_for(b, s.device_id),
            Err(e) => Err(e),
        },
        None => launch_url_for(s.server_base_url, s.device_id),
    }
}

pub open spec fn opt_str_text(o: Option<&str>) -> Option<Seq<char>> {
    match o {
        Some(s) => Some(s@),
        None => None,
    }
}

pub fn resolve_direct_launch_url(state: &RuntimeState, server_base_url: Option<&str>) -> (r: Result<
    WebUrl,
    String,
>)
    ensures
        parsed_view(r) == direct_launch(state@, opt_str_text(server_base_url)),
{
    let base = match server_base_url {
        Some(raw) => match normalize_base_url(raw) {
            Ok(b) => b,
            Err(e) => return Err(e),
        },
        None => state.client_state.server_base_url.clone(),
    };
    build_exam_launch_url(base.as_str(), state.client_state.device_id.as_str())
}


/// The milliseconds since the Unix epoch on the system clock, or nothing
/// when the clock is set before the epoch:
/// `SystemTime::now().duration_since(UNIX_EPOCH)`, as milliseconds. Nothing
/// is stated of the value, which is the time of the call.
#[verifier::external_body]
fn unix_time_millis() -> Option<u128> {
    std::time::SystemTime::now().duration_since(std::time::UNIX_EPOCH).ok().map(|d| d.as_millis())
}

/// The device id made at time `millis`.
pub open spec fn device_id_text(millis: u128) -> Seq<char> {
    "desktop-"@ + hex(millis as nat)
}

/// A device id as the client makes them.
pub open spec fn is_device_id(s: Seq<char>) -> bool {
    exists|m: u128| s == device_id_text(m)
}

/// `desktop-` followed by the time in lower-case hexadecimal.
pub fn device_id_from_millis(millis: u128) -> (r: String)
    ensures
        r@ == device_id_text(millis),
{
    let mut r = String::from_str("desktop-");
    push_hex(&mut r, millis);
    r
}

/// A device id made from the current time.
pub fn generate_device_id() -> (r: String)
    ensures
        is_device_id(r@),
{
    let millis = match unix_time_millis() {
        Some(m) => m,
        None => 0,
    };
    device_id_from_millis(millis)
}

/// The state that a fresh installation starts from: the default server and a
/// new device id.
pub fn default_client_state() -> (r: ClientState)
    ensures
        r.server_base_url@ == DEFAULT_SERVER_BASE_URL@,
        is_device_id(r.device_id@),
{
    ClientState {
        server_base_url: String::from_str(DEFAULT_SERVER_BASE_URL),
        device_id: generate_device_id(),
    }
}

/// The state read from the client's file, or the default state when there was
/// none to read.
pub fn load_client_state(from_file: Option<ClientState>) -> (r: ClientState)
    ensures
        match from_file {
            Some(c) => r == c,
            None => r.server_base_url@ == DEFAULT_SERVER_BASE_URL@ && is_device_id(r.device_id@),
        },
{
    match from_file {
        Some(c) => c,
        None => default_client_state(),
    }
}

/// The server address kept at start-up: the saved one normalised (the default
/// when it does not normalise), moved to the default when it is a legacy one.
pub open spec fn startup_server_url(saved: Seq<char>) -> Seq<char> {
    let n = match spec_normalize_base_url(saved) {
        Ok(u) => u,
        Err(_) => DEFAULT_SERVER_BASE_URL@,
    };
    if spec_should_migrate(n) {
        DEFAULT_SERVER_BASE_URL@
    } else {
        n
    }
}

/// Tidies a loaded state at start-up: the server address as
/// [`startup_server_url`] gives it, and a new device id for a blank one.
pub fn prepare_client_state(loaded: ClientState) -> (r: ClientState)
    ensures
        r.server_base_url@ == startup_server_url(loaded.server_base_url@),
        is_blank(loaded.device_id@) ==> is_device_id(r.device_id@),
        !is_blank(loaded.device_id@) ==> r.device_id@ == loaded.device_id@,
{
    let mut server_base_url = match normalize_base_url(loaded.server_base_url.as_str()) {
        Ok(u) => u,
        Err(_) => String::from_str(DEFAULT_SERVER_BASE_URL),
    };
    if should_migrate_to_default_server_url(server_base_url.as_str()) {
        server_base_url = String::from_str(DEFAULT_SERVER_BASE_URL);
    }
    let device_id = if blank(loaded.device_id.as_str()) {
        generate_device_id()
    } else {
        loaded.device_id
    };
    ClientState { server_base_url, device_id }
}

pub open spec fn msg_name_required() -> Seq<char> {
    "Nama peserta wajib diisi."@
}

pub open spec fn msg_class_required() -> Seq<char> {
    "Kelas wajib diisi."@
}

pub open spec fn msg_token_required() -> Seq<char> {
    "Token ujian wajib diisi."@
}

/// The participant's form with its fields trimmed, or the first missing field.
pub fn normalize_start_exam_payload(payload: &StartExamPayload) -> (r: Result<StartExamPayload, String>)
    ensures
        match r {
            Ok(p) => {
                &&& p.display_name@ == trim(payload.display_name@)
                &&& p.class_room@ == trim(payload.class_room@)
                &&& p.token_global@ == trim(payload.token_global@)
                &&& !is_blank(payload.display_name@)
                &&& !is_blank(payload.class_room@)
                &&& !is_blank(payload.token_global@)
            },
            Err(e) => if is_blank(payload.display_name@) {
                e@ == msg_name_required()
            } else if is_blank(payload.class_room@) {
                e@ == msg_class_required()
            } else {
                is_blank(payload.token_global@) && e@ == msg_token_required()
            },
        },
{
    let display_name = trimmed(payload.display_name.as_str());
    let class_room = trimmed(payload.class_room.as_str());
    let token_global = trimmed(payload.token_global.as_str());
    if display_name.unicode_len() == 0 {
        return Err(String::from_str("Nama peserta wajib diisi."));
    }
    if class_room.unicode_len() == 0 {
        return Err(String::from_str("Kelas wajib diisi."));
    }
    if token_global.unicode_len() == 0 {
        return Err(String::from_str("Token ujian wajib diisi."));
    }
    Ok(StartExamPayload { display_name, class_room, token_global })
}

/// Enters exam mode for the launcher's start button and reports the server
/// in use; the shell reports a missing launcher window as the failure.
pub fn start_exam(state: &mut RuntimeState, launcher_found: bool) -> (r: (StartExamResponse, EnterExamPlan))
    ensures
        r.0.ok,
        r.0.server_base_url@ == old(state)@.server_base_url,
        r.1.stop_heartbeat == old(state)@.heartbeat_running,
        r.1.start_watchdog == if launcher_found {
            Some(old(state)@.watchdog_running)
        } else {
            None
        },
        final(state)@ == after_enter_exam_mode(old(state)@, launcher_found),
{
    let server_base_url = state.client_state.server_base_url.clone();
    let plan = enter_exam_mode_runtime(state, launcher_found);
    (StartExamResponse { ok: true, server_base_url }, plan)
}

/// Every transition keeps a heartbeat loop running exactly when a session
/// key is recorded for it.
pub proof fn law_transitions_keep_wf(s: RuntimeView, o: OverlayView, u: UrlModel, already: bool)
    requires
        s.wf(),
    ensures
        after_heartbeat(s, o).wf(),
        after_heartbeat(with_overlay(s, o), o).wf(),
        after_enter_exam_mode(s, true).wf(),
        after_enter_exam_mode(s, false).wf(),
        after_open_exam_window(s, u, already).wf(),
        after_return_to_launcher(s).wf(),
        after_shutdown(s).wf(),
        (RuntimeView { heartbeat_running: false, heartbeat_key: None, ..s }).wf(),
        (RuntimeView { watchdog_running: true, ..s }).wf(),
        (RuntimeView { watchdog_running: false, ..s }).wf(),
        (RuntimeView { allow_exam_close: false, ..s }).wf(),
        (RuntimeView { allow_exam_close: true, ..s }).wf(),
{
}

/// Asking twice for the heartbeat of one session starts one loop: the second
/// request leaves everything as it is.
pub proof fn law_heartbeat_started_once(s: RuntimeView, o: OverlayView)
    ensures
        heartbeat_action(after_heartbeat(s, o), o) == HeartbeatAction::Unchanged,
        after_heartbeat(after_heartbeat(s, o), o) == after_heartbeat(s, o),
{
}

/// A started heartbeat loop reports for the overlay's session.
pub proof fn law_heartbeat_follows_session(s: RuntimeView, o: OverlayView)
    requires
        s.wf(),
        !is_blank(o.api_base),
        !is_blank(o.session_id),
    ensures
        after_heartbeat(s, o).heartbeat_running,
        after_heartbeat(s, o).heartbeat_key == Some(session_key(o)),
{
}

/// Entering exam mode, or opening the exam portal, leaves the exam window
/// locked; with the launcher window found, a kiosk watchdog runs after entering.
pub proof fn law_exam_mode_locks(s: RuntimeView, u: UrlModel)
    ensures
        after_enter_exam_mode(s, true).locked(),
        after_enter_exam_mode(s, true).watchdog_running,
        after_enter_exam_mode(s, false).locked(),
        after_open_exam_window(RuntimeView { allow_exam_close: false, ..s }, u, s.locked()).locked(),
        !s.locked() ==> after_open_exam_window(
            RuntimeView { allow_exam_close: false, ..s },
            u,
            false,
        ).watchdog_running,
{
}

/// Back at the launcher the window is unlocked, no overlay is shown, no loop
/// runs and no session is left to end; returning again changes nothing.
pub proof fn law_return_to_launcher(s: RuntimeView)
    ensures
        !after_return_to_launcher(s).locked(),
        after_return_to_launcher(s).overlay is None,
        !after_return_to_launcher(s).heartbeat_running,
        !after_return_to_launcher(s).watchdog_running,
        after_return_to_launcher(s).wf(),
        session_to_end(after_return_to_launcher(s)) is None,
        after_return_to_launcher(after_return_to_launcher(s)) == after_return_to_launcher(s),
        after_return_to_launcher(s).server_base_url == s.server_base_url,
        after_return_to_launcher(s).device_id == s.device_id,
{
}

/// After storing an incoming overlay, reading the state gives the merge that
/// was stored; storing the same overlay again changes nothing, and storing
/// touches neither the lock nor the loops.
pub proof fn law_store_then_read(s: RuntimeView, o: OverlayView)
    ensures
        overlay_read(after_store(s, o)) == merge_overlay(s.overlay, o),
        after_store(after_store(s, o), o) == after_store(s, o),
        after_store(s, o).locked() == s.locked(),
        s.wf() ==> after_store(s, o).wf(),
{
}

/// Opening the exam window replaces whatever overlay was stored with the one
/// the launch URL carries (the default overlay when it carries none): the
/// overlay shown, and the session ended on leaving, depend on the launch URL
/// alone and never on an earlier exam.
pub proof fn law_open_exam_window_installs_launch_overlay(
    s: RuntimeView,
    t: RuntimeView,
    u: UrlModel,
    already: bool,
)
    ensures
        after_open_exam_window(s, u, already).overlay == Some(
            match overlay_of_url(u) {
                Some(o) => o,
                None => default_overlay(),
            },
        ),
        overlay_of_url(u) is None ==> overlay_read(after_open_exam_window(s, u, already))
            == default_overlay(),
        overlay_of_url(u) is None ==> session_to_end(after_open_exam_window(s, u, already)) is None,
        after_open_exam_window(s, u, already).overlay == after_open_exam_window(t, u, already).overlay,
        session_to_end(after_open_exam_window(s, u, already)) == session_to_end(
            after_open_exam_window(t, u, already),
        ),
{
    reveal_strlit("");
}

} // verus!
