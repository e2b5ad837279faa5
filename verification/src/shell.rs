//! What the desktop shell tells the launcher page, and how it answers key
//! presses and the Android permission markers.

use vstd::prelude::*;
use crate::json::{json_string_literal, json_string_text};
use crate::overlay::{is_return_to_launcher_url, is_return_url, return_message, return_message_from_url};
use crate::text::{chars_of, same_text, trim, trimmed};
use crate::web_url::WebUrl;

verus! {

/// A string as a JavaScript argument: its JSON string literal.
pub open spec fn js_string_argument(s: Seq<char>) -> Seq<char> {
    json_string_text(s)
}

fn string_argument(s: &str) -> (r: String)
    ensures
        r@ == js_string_argument(s@),
{
    match json_string_literal(s) {
        Some(j) => j,
        None => String::from_str("\"\""),
    }
}

pub open spec fn loading_script_text(active: bool, message: Seq<char>) -> Seq<char> {
    "window.__EXAMUQ_SET_EXAM_LOADING__ && window.__EXAMUQ_SET_EXAM_LOADING__("@ + (if active {
        "true"@
    } else {
        "false"@
    }) + ", "@ + js_string_argument(message) + ");"@
}

/// The script that shows (or hides) the launcher's loading state with a message.
pub fn exam_loading_script(active: bool, message: &str) -> (r: String)
    ensures
        r@ == loading_script_text(active, message@),
{
    let mut r = String::from_str(
        "window.__EXAMUQ_SET_EXAM_LOADING__ && window.__EXAMUQ_SET_EXAM_LOADING__(",
    );
    r.append(if active { "true" } else { "false" });
    r.append(", ");
    let m = string_argument(message);
    r.append(m.as_str());
    r.append(");");
    r
}

pub open spec fn sync_state_script_text(payload: Seq<char>) -> Seq<char> {
    "window.__EXAMUQ_SYNC_EXAM_STATE__ && window.__EXAMUQ_SYNC_EXAM_STATE__("@ + payload + ");"@
}

/// The script that hands the overlay, serialized as `payload`, to the launcher.
pub fn exam_state_script(payload: &str) -> (r: String)
    ensures
        r@ == sync_state_script_text(payload@),
{
    let mut r = String::from_str(
        "window.__EXAMUQ_SYNC_EXAM_STATE__ && window.__EXAMUQ_SYNC_EXAM_STATE__(",
    );
    r.append(payload);
    r.append(");");
    r
}

pub open spec fn return_script_text(reason: Seq<char>) -> Seq<char> {
    "window.__EXAMUQ_RETURN_TO_LAUNCHER__ && window.__EXAMUQ_RETURN_TO_LAUNCHER__("@
        + js_string_argument(reason) + ");"@
}

/// The script that shows the launcher again with the reason for returning.
pub fn return_to_launcher_script(reason: &str) -> (r: String)
    ensures
        r@ == return_script_text(reason@),
{
    let mut r = String::from_str(
        "window.__EXAMUQ_RETURN_TO_LAUNCHER__ && window.__EXAMUQ_RETURN_TO_LAUNCHER__(",
    );
    let m = string_argument(reason);
    r.append(m.as_str());
    r.append(");");
    r
}

/// The script that switches the launcher page into exam mode.
pub fn enter_exam_mode_script() -> (r: &'static str)
    ensures
        r@ == "window.__EXAMUQ_ENTER_EXAM_MODE__ && window.__EXAMUQ_ENTER_EXAM_MODE__();"@,
{
    "window.__EXAMUQ_ENTER_EXAM_MODE__ && window.__EXAMUQ_ENTER_EXAM_MODE__();"
}

/// The loading state shown while the exam page loads: loading with its
/// message when the load starts, ready when it finishes.
pub fn page_load_state(started: bool) -> (r: (bool, &'static str))
    ensures
        r.0 == started,
        started ==> r.1@ == "Memuat halaman ujian..."@,
        !started ==> r.1@ == "Portal ujian siap."@,
{
    if started {
        (true, "Memuat halaman ujian...")
    } else {
        (false, "Portal ujian siap.")
    }
}

/// What the exam webview does with a navigation.
pub enum NavigationAction {
    /// Let the page load.
    Allow,
    /// Cancel it and go back to the launcher with this message.
    ReturnToLauncher { message: String },
}

/// A navigation to the return address cancels it and returns to the
/// launcher; any other navigation proceeds.
pub fn navigation_action(url: &WebUrl) -> (r: NavigationAction)
    ensures
        is_return_url(url@) ==> (r matches NavigationAction::ReturnToLauncher { message }
            && message@ == return_message(url@)),
        !is_return_url(url@) ==> r is Allow,
{
    if is_return_to_launcher_url(url) {
        NavigationAction::ReturnToLauncher { message: return_message_from_url(url) }
    } else {
        NavigationAction::Allow
    }
}

/// What the exam webview does with a request for a new window; the new
/// window itself is always refused.
pub enum NewWindowAction {
    /// Go back to the launcher with this message.
    ReturnToLauncher { message: String },
    /// Load the requested page in the exam webview instead.
    OpenInExam,
}

/// A new window for the return address returns to the launcher; any other is
/// loaded in the exam webview.
pub fn new_window_action(url: &WebUrl) -> (r: NewWindowAction)
    ensures
        is_return_url(url@) ==> (r matches NewWindowAction::ReturnToLauncher { message }
            && message@ == return_message(url@)),
        !is_return_url(url@) ==> r is OpenInExam,
{
    if is_return_to_launcher_url(url) {
        NewWindowAction::ReturnToLauncher { message: return_message_from_url(url) }
    } else {
        NewWindowAction::OpenInExam
    }
}

/// One pass of the session heartbeat loop.
pub enum HeartbeatStep {
    /// The loop was told to stop: leave it.
    Stop,
    /// Send a heartbeat, then wait `seconds` seconds, one at a time, leaving
    /// early when told to stop.
    SendThenWait { seconds: u64 },
}

pub fn heartbeat_step(stop_requested: bool) -> (r: HeartbeatStep)
    ensures
        stop_requested ==> r is Stop,
        !stop_requested ==> r == (HeartbeatStep::SendThenWait { seconds: 10 }),
{
    if stop_requested {
        HeartbeatStep::Stop
    } else {
        HeartbeatStep::SendThenWait { seconds: 10 }
    }
}

/// One pass of the kiosk watchdog loop.
pub enum WatchdogStep {
    /// The loop was told to stop, or the shell's state is gone: leave it.
    Stop,
    /// Kiosk mode is off: wait `millis` milliseconds and look again.
    Idle { millis: u64 },
    /// Kiosk mode is on: put the kiosk window back in front, focus the exam,
    /// then wait `millis` milliseconds.
    Enforce { millis: u64 },
}

pub fn watchdog_step(stop_requested: bool, state_available: bool, kiosk_active: bool) -> (r:
    WatchdogStep)
    ensures
        (stop_requested || !state_available) ==> r is Stop,
        (!stop_requested && state_available && !kiosk_active) ==> r == (WatchdogStep::Idle {
            millis: 300,
        }),
        (!stop_requested && state_available && kiosk_active) ==> r == (WatchdogStep::Enforce {
            millis: 350,
        }),
{
    if stop_requested || !state_available {
        WatchdogStep::Stop
    } else if !kiosk_active {
        WatchdogStep::Idle { millis: 300 }
    } else {
        WatchdogStep::Enforce { millis: 350 }
    }
}

/// The global shortcuts the shell listens to.
pub enum ShortcutKey {
    /// Ctrl+Shift+X (Cmd+Shift+X on macOS): the operator's secret exit.
    SecretExit,
    /// F1 to F12.
    FunctionKey,
    /// Ctrl+R (Cmd+R on macOS).
    Refresh,
    Escape,
    Other,
}

/// What the shell does for a pressed shortcut.
pub enum ShortcutAction {
    /// End the session and close the client.
    CloseApp,
    /// Put the kiosk window back in front and focus the exam; `lock` asks to
    /// reapply the presentation lock too.
    Refocus { lock: bool },
    /// Leave exam mode for the launcher.
    ReturnToLauncher,
    Nothing,
}

pub open spec fn spec_shortcut_action(key: ShortcutKey, kiosk_active: bool) -> ShortcutAction {
    match key {
        ShortcutKey::SecretExit => if kiosk_active {
            ShortcutAction::CloseApp
        } else {
            ShortcutAction::Nothing
        },
        ShortcutKey::FunctionKey => ShortcutAction::Refocus { lock: kiosk_active },
        ShortcutKey::Refresh => ShortcutAction::Refocus { lock: false },
        ShortcutKey::Escape => if kiosk_active {
            ShortcutAction::Refocus { lock: true }
        } else {
            ShortcutAction::Nothing
        },
        ShortcutKey::Other => if kiosk_active {
            ShortcutAction::ReturnToLauncher
        } else {
            ShortcutAction::Nothing
        },
    }
}

pub fn shortcut_action(key: ShortcutKey, kiosk_active: bool) -> (r: ShortcutAction)
    ensures
        r == spec_shortcut_action(key, kiosk_active),
{
    match key {
        ShortcutKey::SecretExit => if kiosk_active {
            ShortcutAction::CloseApp
        } else {
            ShortcutAction::Nothing
        },
        ShortcutKey::FunctionKey => ShortcutAction::Refocus { lock: kiosk_active },
        ShortcutKey::Refresh => ShortcutAction::Refocus { lock: false },
        ShortcutKey::Escape => if kiosk_active {
            ShortcutAction::Refocus { lock: true }
        } else {
            ShortcutAction::Nothing
        },
        ShortcutKey::Other => if kiosk_active {
            ShortcutAction::ReturnToLauncher
        } else {
            ShortcutAction::Nothing
        },
    }
}

/// Outside exam mode no shortcut closes the client or leaves for the launcher.
pub proof fn law_shortcuts_outside_exam_are_harmless(key: ShortcutKey)
    ensures
        spec_shortcut_action(key, false) != ShortcutAction::CloseApp,
        spec_shortcut_action(key, false) != ShortcutAction::ReturnToLauncher,
{
}

/// What the Android permission markers say.
pub enum PermissionGate {
    /// A marker reads `1`.
    Ready,
    /// Markers were found and none reads `1`.
    NotReady,
    /// No marker was found; the native gate decides.
    Unmarked,
}

pub open spec fn marker_text(m: Option<String>) -> Option<Seq<char>> {
    match m {
        Some(s) => Some(s@),
        None => None,
    }
}

/// A marker that reads `1`, with white space around it.
pub open spec fn marks_ready(m: Option<Seq<char>>) -> bool {
    m matches Some(t) && trim(t) == "1"@
}

pub open spec fn spec_permission_gate(markers: Seq<Option<String>>) -> PermissionGate {
    if exists|i: int| 0 <= i < markers.len() && marks_ready(marker_text(#[trigger] markers[i])) {
        PermissionGate::Ready
    } else if forall|i: int| 0 <= i < markers.len() ==> #[trigger] markers[i] is None {
        PermissionGate::Unmarked
    } else {
        PermissionGate::NotReady
    }
}

impl PermissionGate {
    /// Whether the exam may start: unless markers were found and none reads `1`.
    pub fn is_ready(&self) -> (r: bool)
        ensures
            r == !(*self is NotReady),
    {
        match self {
            PermissionGate::NotReady => false,
            _ => true,
        }
    }
}

/// The verdict of the permission markers read from the candidate files, in
/// order (`None` for a file that could not be read).
pub fn android_permissions_are_ready(markers: &Vec<Option<String>>) -> (r: PermissionGate)
    ensures
        r == spec_permission_gate(markers@),
{
    let mut saw_marker = false;
    let mut i: usize = 0;
    while i < markers.len()
        invariant
            i <= markers@.len(),
            forall|k: int| 0 <= k < i ==> !marks_ready(marker_text(#[trigger] markers@[k])),
            saw_marker <==> exists|k: int| 0 <= k < i && #[trigger] markers@[k] is Some,
        decreases markers@.len() - i,
    {
        match &markers[i] {
            Some(raw) => {
                saw_marker = true;
                let flag = chars_of(trimmed(raw.as_str()).as_str());
                if same_text(&flag, "1") {
                    assert(marks_ready(marker_text(markers@[i as int])));
                    return PermissionGate::Ready;
                }
            },
            None => {},
        }
        i = i + 1;
    }
    if saw_marker {
        PermissionGate::NotReady
    } else {
        PermissionGate::Unmarked
    }
}

} // verus!
