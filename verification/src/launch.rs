//! Launch status of the main window: the interface counts as loaded only once
//! it has reported itself ready, and never while a load failure stands.

use vstd::prelude::*;
use crate::text::{ascii_lower_seq, chars_of, contains_str, has_sub, starts_with_str, to_ascii_lower};

verus! {

/// What is known about loading the interface.
pub struct LaunchStatus {
    /// The interface finished booting and reported itself ready.
    pub ui_ready: bool,
    /// A connection or load failure was detected.
    pub load_failed: bool,
    /// Human-readable phase for the splash screen.
    pub phase: String,
    /// The last failure reported, if any.
    pub last_error: Option<String>,
}

/// A copy of the launch status, with the verdict.
pub struct LaunchStatusSnapshot {
    pub phase: String,
    pub ui_ready: bool,
    pub load_failed: bool,
    pub last_error: Option<String>,
    pub success: bool,
}

/// The phase shown before anything has happened.
pub open spec fn starting_phase() -> Seq<char> {
    "Starting\u{2026}"@
}

impl Default for LaunchStatus {
    fn default() -> (r: Self)
        ensures
            !r.ui_ready,
            !r.load_failed,
            r.phase@ == starting_phase(),
            r.last_error is None,
    {
        LaunchStatus {
            ui_ready: false,
            load_failed: false,
            phase: String::from_str("Starting\u{2026}"),
            last_error: None,
        }
    }
}

/// The snapshot `s` reports the status `l`: a copy of its fields, and success
/// exactly when the interface is ready and no failure stands.
pub open spec fn reports(l: LaunchStatus, s: LaunchStatusSnapshot) -> bool {
    &&& s.phase@ == l.phase@
    &&& s.ui_ready == l.ui_ready
    &&& s.load_failed == l.load_failed
    &&& crate::session::opt_view(s.last_error) == crate::session::opt_view(l.last_error)
    &&& s.success == (l.ui_ready && !l.load_failed)
}

fn copy_text(s: &String) -> (r: String)
    ensures
        r@ == s@,
{
    String::from_str(s.as_str())
}

impl LaunchStatus {
    /// The current status, with success only when the interface is ready and
    /// no failure stands.
    pub fn snapshot(&self) -> (r: LaunchStatusSnapshot)
        ensures
            reports(*self, r),
    {
        LaunchStatusSnapshot {
            phase: copy_text(&self.phase),
            ui_ready: self.ui_ready,
            load_failed: self.load_failed,
            last_error: match &self.last_error {
                Some(e) => Some(copy_text(e)),
                None => None,
            },
            success: self.ui_ready && !self.load_failed,
        }
    }

    /// Moves to a new phase; gives the snapshot to announce.
    pub fn set_phase(&mut self, phase: &str) -> (r: LaunchStatusSnapshot)
        ensures
            final(self).phase@ == phase@,
            final(self).ui_ready == old(self).ui_ready,
            final(self).load_failed == old(self).load_failed,
            crate::session::opt_view(final(self).last_error) == crate::session::opt_view(
                old(self).last_error,
            ),
            reports(*final(self), r),
    {
        self.phase = String::from_str(phase);
        self.snapshot()
    }

    /// Records that the interface reported itself ready: any failure is
    /// cleared; gives the snapshot to announce.
    pub fn mark_ready(&mut self) -> (r: LaunchStatusSnapshot)
        ensures
            final(self).ui_ready,
            !final(self).load_failed,
            final(self).last_error is None,
            final(self).phase@ == "UI ready"@,
            reports(*final(self), r),
    {
        self.ui_ready = true;
        self.load_failed = false;
        self.last_error = None;
        self.set_phase("UI ready")
    }

    /// Records a load failure with its reason: the interface no longer counts
    /// as ready; gives the snapshot to announce.
    pub fn mark_failed(&mut self, reason: &str) -> (r: LaunchStatusSnapshot)
        ensures
            !final(self).ui_ready,
            final(self).load_failed,
            crate::session::opt_view(final(self).last_error) == Some(reason@),
            final(self).phase@ == "Connection failed \u{2014} "@ + reason@,
            reports(*final(self), r),
    {
        self.load_failed = true;
        self.ui_ready = false;
        self.last_error = Some(String::from_str(reason));
        let phase = crate::text::join2("Connection failed \u{2014} ", reason);
        self.set_phase(phase.as_str())
    }
}

/// Whether a loaded page, by its address, title and the start of its text (all
/// compared in ASCII lower case), is a browser connection-error page.
pub open spec fn connection_error_page(url: Seq<char>, title: Seq<char>, body: Seq<char>) -> bool {
    let u = ascii_lower_seq(url);
    let t = ascii_lower_seq(title);
    let b = ascii_lower_seq(body);
    ||| has_sub(u, "chrome-error://"@)
    ||| has_sub(u, "chromewebdata"@)
    ||| ("data:text/html,"@.is_prefix_of(u) && has_sub(b, "grok desktop could not load"@))
    ||| has_sub(t, "can't reach"@)
    ||| has_sub(t, "cannot reach"@)
    ||| has_sub(t, "not available"@)
    ||| has_sub(t, "this site can\u{2019}t be reached"@)
    ||| has_sub(t, "this site can't be reached"@)
    ||| has_sub(t, "err_"@)
    ||| has_sub(b, "err_connection_refused"@)
    ||| has_sub(b, "err_name_not_resolved"@)
    ||| has_sub(b, "err_connection_timed_out"@)
    ||| has_sub(b, "err_address_unreachable"@)
    ||| has_sub(b, "took too long to respond"@)
    ||| has_sub(b, "refused to connect"@)
    ||| has_sub(b, "can't reach this page"@)
    ||| has_sub(b, "cannot reach this page"@)
    ||| has_sub(b, "this site can\u{2019}t be reached"@)
    ||| has_sub(b, "this site can't be reached"@)
}

/// Detects a browser connection-error page (see `connection_error_page`).
pub fn looks_like_connection_error(url: &str, title: &str, body_sample: &str) -> (r: bool)
    ensures
        r == connection_error_page(url@, title@, body_sample@),
{
    let uv = chars_of(url);
    let tv = chars_of(title);
    let bv = chars_of(body_sample);
    let u = to_ascii_lower(&uv);
    let t = to_ascii_lower(&tv);
    let b = to_ascii_lower(&bv);
    if contains_str(&u, "chrome-error://") || contains_str(&u, "chromewebdata") || (starts_with_str(
        &u,
        "data:text/html,",
    ) && contains_str(&b, "grok desktop could not load")) {
        return true;
    }
    if contains_str(&t, "can't reach") || contains_str(&t, "cannot reach") || contains_str(
        &t,
        "not available",
    ) || contains_str(&t, "this site can\u{2019}t be reached") || contains_str(
        &t,
        "this site can't be reached",
    ) || contains_str(&t, "err_") {
        return true;
    }
    contains_str(&b, "err_connection_refused") || contains_str(&b, "err_name_not_resolved")
        || contains_str(&b, "err_connection_timed_out") || contains_str(
        &b,
        "err_address_unreachable",
    ) || contains_str(&b, "took too long to respond") || contains_str(&b, "refused to connect")
        || contains_str(&b, "can't reach this page") || contains_str(&b, "cannot reach this page")
        || contains_str(&b, "this site can\u{2019}t be reached") || contains_str(
        &b,
        "this site can't be reached",
    )
}

/// The script run after a page finishes loading: it reports a connection-error
/// page back to the application.
pub open spec fn probe_script() -> Seq<char> {
    "(function() {\n  try {\n    var title = document.title || '';\n    var body = (document.body && (document.body.innerText || document.body.textContent)) || '';\n    body = String(body).slice(0, 500);\n    var url = location.href || '';\n    var bad = /chrome-error:|chromewebdata/i.test(url)\n      || /can't reach|cannot reach|can't be reached|ERR_/i.test(title)\n      || /ERR_CONNECTION|refused to connect|took too long|can't reach this page|cannot reach this page/i.test(body);\n    if (bad && window.__TAURI__ && window.__TAURI__.core && window.__TAURI__.core.invoke) {\n      window.__TAURI__.core.invoke('report_ui_failed', {\n        reason: (title || 'connection error') + ' @ ' + url\n      });\n    }\n  } catch (e) {}\n})();"@
}

/// The connection probe script (see `probe_script`).
pub fn connection_probe_script() -> (r: &'static str)
    ensures
        r@ == probe_script(),
{
    "(function() {\n  try {\n    var title = document.title || '';\n    var body = (document.body && (document.body.innerText || document.body.textContent)) || '';\n    body = String(body).slice(0, 500);\n    var url = location.href || '';\n    var bad = /chrome-error:|chromewebdata/i.test(url)\n      || /can't reach|cannot reach|can't be reached|ERR_/i.test(title)\n      || /ERR_CONNECTION|refused to connect|took too long|can't reach this page|cannot reach this page/i.test(body);\n    if (bad && window.__TAURI__ && window.__TAURI__.core && window.__TAURI__.core.invoke) {\n      window.__TAURI__.core.invoke('report_ui_failed', {\n        reason: (title || 'connection error') + ' @ ' + url\n      });\n    }\n  } catch (e) {}\n})();"
}

// ---------------------------------------------------------------------------
// Page loads and the fallback to the bundled interface
// ---------------------------------------------------------------------------

/// The address is that of the development server (compared in ASCII lower case).
pub open spec fn dev_server_url(url: Seq<char>) -> bool {
    has_sub(ascii_lower_seq(url), "127.0.0.1:1420"@) || has_sub(ascii_lower_seq(url), "localhost:1420"@)
}

/// Whether the window shows the development server (see `dev_server_url`).
pub fn is_dev_server_url(url: &str) -> (r: bool)
    ensures
        r == dev_server_url(url@),
{
    let v = chars_of(url);
    let u = to_ascii_lower(&v);
    contains_str(&u, "127.0.0.1:1420") || contains_str(&u, "localhost:1420")
}

impl LaunchStatus {
    /// A page starts loading: the interface no longer counts as ready, and the
    /// phase names the page and whether it comes from the development server.
    pub fn page_started(&mut self, url: &str) -> (r: LaunchStatusSnapshot)
        ensures
            !final(self).ui_ready,
            final(self).load_failed == old(self).load_failed,
            crate::session::opt_view(final(self).last_error) == crate::session::opt_view(
                old(self).last_error,
            ),
            final(self).phase@ == (if dev_server_url(url@) {
                "Loading from dev server\u{2026} ("@ + url@ + ")"@
            } else {
                "Loading UI\u{2026} ("@ + url@ + ")"@
            }),
            reports(*final(self), r),
    {
        self.ui_ready = false;
        let phase = if is_dev_server_url(url) {
            crate::text::join3("Loading from dev server\u{2026} (", url, ")")
        } else {
            crate::text::join3("Loading UI\u{2026} (", url, ")")
        };
        self.set_phase(phase.as_str())
    }

    /// The user asks to load the interface again: readiness and failure are
    /// cleared and the phase says so; the last error is kept.
    pub fn retry_load(&mut self) -> (r: LaunchStatusSnapshot)
        ensures
            !final(self).ui_ready,
            !final(self).load_failed,
            crate::session::opt_view(final(self).last_error) == crate::session::opt_view(
                old(self).last_error,
            ),
            final(self).phase@ == "Retrying load\u{2026}"@,
            reports(*final(self), r),
    {
        self.ui_ready = false;
        self.load_failed = false;
        self.set_phase("Retrying load\u{2026}")
    }
}

/// What is known when a finished page load is handled.
pub enum FinishedProbe {
    /// Nothing has been checked yet.
    Unchecked,
    /// The page came from the development server, which answered (or not).
    DevServer(bool),
    /// The page is a connection-error page; the development server answered (or not).
    ErrorPage(bool),
}

/// What to do next about a finished page load.
pub enum FinishedAction {
    /// Check whether the development server answers; come back with `DevServer`.
    ProbeDevServer,
    /// Check whether the development server answers; come back with `ErrorPage`.
    ProbeForErrorPage,
    /// Announce the phase, if any, and fall back to the bundled interface.
    SwitchOffline(Option<String>),
    /// Mark the load failed with the reason and show the error page with the detail.
    Fail { reason: String, detail: String },
    /// Announce the phase and run the connection probe script in the page.
    Loaded(String),
}

/// The step for a finished page that is not a live development-server page
/// (see `page_finished_step`): an error page asks for a probe, any other page
/// has loaded.
pub open spec fn after_dev_check(url: Seq<char>, r: FinishedAction) -> bool {
    if connection_error_page(url, ""@, ""@) {
        r is ProbeForErrorPage
    } else {
        r matches FinishedAction::Loaded(p) && p@ == "Page loaded \u{2014} starting app\u{2026}"@
    }
}

/// Decides what to do about the page at `url` that has finished loading. A
/// development-server page is first checked against the server: if it does not
/// answer, the bundled interface takes over. A connection-error page is checked
/// the same way: if the server does not answer either, the bundled interface
/// takes over, else the load has failed. Any other page has loaded.
pub fn page_finished_step(url: &str, known: FinishedProbe) -> (r: FinishedAction)
    ensures
        match known {
            FinishedProbe::Unchecked => if dev_server_url(url@) {
                r is ProbeDevServer
            } else {
                after_dev_check(url@, r)
            },
            FinishedProbe::DevServer(up) => if up {
                after_dev_check(url@, r)
            } else {
                r matches FinishedAction::SwitchOffline(Some(p))
                    && p@ == "Dev server refused connection \u{2014} switching to offline UI\u{2026}"@
            },
            FinishedProbe::ErrorPage(up) => if up {
                r matches FinishedAction::Fail { reason, detail } && reason@ == "WebView could not open "@
                    + url@ && detail@ == "Failed URL: "@ + url@
            } else {
                r matches FinishedAction::SwitchOffline(None)
            },
        },
{
    let dev_checked = match known {
        FinishedProbe::Unchecked => {
            if is_dev_server_url(url) {
                return FinishedAction::ProbeDevServer;
            }
            true
        },
        FinishedProbe::DevServer(up) => up,
        FinishedProbe::ErrorPage(up) => {
            if up {
                return FinishedAction::Fail {
                    reason: crate::text::join2("WebView could not open ", url),
                    detail: crate::text::join2("Failed URL: ", url),
                };
            }
            return FinishedAction::SwitchOffline(None);
        },
    };
    if !dev_checked {
        return FinishedAction::SwitchOffline(
            Some(
                String::from_str(
                    "Dev server refused connection \u{2014} switching to offline UI\u{2026}",
                ),
            ),
        );
    }
    if looks_like_connection_error(url, "", "") {
        FinishedAction::ProbeForErrorPage
    } else {
        FinishedAction::Loaded(String::from_str("Page loaded \u{2014} starting app\u{2026}"))
    }
}

/// The address of the interface bundled with the application.
pub open spec fn offline_ui_url() -> Seq<char> {
    "http://tauri.localhost/"@
}

/// What is known while making sure the window does not stay on a dead
/// development server.
pub enum OfflineEvent {
    /// The window shows this address.
    Showing(String),
    /// The development server answered (or not).
    DevServerProbed(bool),
    /// Opening the bundled interface failed with this error.
    NavigateFailed(String),
    /// The bundled interface was opened at this address.
    Navigated(String),
}

/// What to do next about the fallback to the bundled interface.
pub enum OfflineAction {
    /// Announce the phase; nothing more to do.
    Announce(String),
    /// Check whether the development server answers; come back with `DevServerProbed`.
    ProbeDevServer,
    /// Announce the phase and open the bundled interface at the address; come
    /// back with `NavigateFailed` or `Navigated`.
    Navigate { phase: String, url: String },
    /// Mark the load failed with the reason and show the error page with the detail.
    Fail { reason: String, detail: String },
}

/// Decides the next step of the fallback: a window that does not show the
/// development server already shows the bundled interface; one that does stays
/// only while the server answers, else the bundled interface is opened; a
/// failure to open it is a failed load.
pub fn offline_ui_step(event: &OfflineEvent) -> (r: OfflineAction)
    ensures
        match *event {
            OfflineEvent::Showing(url) => if dev_server_url(url@) {
                r is ProbeDevServer
            } else {
                r matches OfflineAction::Announce(p) && p@ == "Loading offline UI\u{2026}"@
            },
            OfflineEvent::DevServerProbed(up) => if up {
                r matches OfflineAction::Announce(p) && p@ == "Connected to dev server on 127.0.0.1:1420"@
            } else {
                r matches OfflineAction::Navigate { phase, url } && phase@
                    == "Dev server not running \u{2014} switching to offline UI (build\\)\u{2026}"@
                    && url@ == offline_ui_url()
            },
            OfflineEvent::NavigateFailed(e) => r matches OfflineAction::Fail { reason, detail }
                && reason@ == "Dev server down on 127.0.0.1:1420 and offline navigate failed: "@ + e@
                + ". Run Grok-Desktop.bat / npm start (release build)."@ && detail@
                == "127.0.0.1:1420 refused connection, and offline UI navigate failed: "@ + e@,
            OfflineEvent::Navigated(url) => r matches OfflineAction::Announce(p) && p@
                == "Navigated to offline UI ("@ + url@ + ")"@,
        },
{
    match event {
        OfflineEvent::Showing(url) => {
            if is_dev_server_url(url.as_str()) {
                OfflineAction::ProbeDevServer
            } else {
                OfflineAction::Announce(String::from_str("Loading offline UI\u{2026}"))
            }
        },
        OfflineEvent::DevServerProbed(up) => {
            if *up {
                OfflineAction::Announce(String::from_str("Connected to dev server on 127.0.0.1:1420"))
            } else {
                OfflineAction::Navigate {
                    phase: String::from_str(
                        "Dev server not running \u{2014} switching to offline UI (build\\)\u{2026}",
                    ),
                    url: String::from_str("http://tauri.localhost/"),
                }
            }
        },
        OfflineEvent::NavigateFailed(e) => OfflineAction::Fail {
            reason: crate::text::join3(
                "Dev server down on 127.0.0.1:1420 and offline navigate failed: ",
                e.as_str(),
                ". Run Grok-Desktop.bat / npm start (release build).",
            ),
            detail: crate::text::join2(
                "127.0.0.1:1420 refused connection, and offline UI navigate failed: ",
                e.as_str(),
            ),
        },
        OfflineEvent::Navigated(url) => OfflineAction::Announce(
            crate::text::join3("Navigated to offline UI (", url.as_str(), ")"),
        ),
    }
}

/// The reason given when the interface never reports itself ready.
pub open spec fn boot_timeout_reason() -> Seq<char> {
    "Timed out waiting for the frontend to boot. Close this app and run Grok-Desktop.bat (builds RELEASE offline UI). Debug binaries open http://127.0.0.1:1420 unless Vite is running."@
}

/// What the start-up watchdog does next.
pub enum WatchdogAction {
    /// Nothing: the interface is ready, or a failure is already shown.
    Stop,
    /// Try the fallback to the bundled interface once more, then look again.
    RetryOffline,
    /// Mark the load failed with the reason, show the error page with it and
    /// bring the window forward.
    Fail(String),
}

/// The watchdog's decision when it looks at the status: the first time, it
/// stops if the interface is ready or a failure stands, and otherwise retries
/// the fallback; the second time, it stops if the interface is ready and
/// otherwise gives up with a time-out.
pub fn watchdog_step(status: &LaunchStatus, first_look: bool) -> (r: WatchdogAction)
    ensures
        if first_look {
            if status.ui_ready || status.load_failed {
                r is Stop
            } else {
                r is RetryOffline
            }
        } else if status.ui_ready {
            r is Stop
        } else {
            r matches WatchdogAction::Fail(reason) && reason@ == boot_timeout_reason()
        },
{
    if status.ui_ready || (first_look && status.load_failed) {
        WatchdogAction::Stop
    } else if first_look {
        WatchdogAction::RetryOffline
    } else {
        WatchdogAction::Fail(
            String::from_str(
                "Timed out waiting for the frontend to boot. Close this app and run Grok-Desktop.bat (builds RELEASE offline UI). Debug binaries open http://127.0.0.1:1420 unless Vite is running.",
            ),
        )
    }
}

// ---------------------------------------------------------------------------
// Laws
// ---------------------------------------------------------------------------

/// Success is reported exactly when the interface is ready and no failure
/// stands; so a reported failure always rules out success.
pub proof fn success_needs_ready_without_failure(l: LaunchStatus, s: LaunchStatusSnapshot)
    requires
        reports(l, s),
    ensures
        s.success <==> (l.ui_ready && !l.load_failed),
        l.load_failed ==> !s.success,
        !l.ui_ready ==> !s.success,
{
}

} // verus!
