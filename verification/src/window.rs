use vstd::prelude::*;
use vstd::string::*;
use vstd::slice::slice_to_vec;
use vstd::utf8::encode_utf8;

use crate::text::{
    eq_ignore_ascii_case, spec_eq_ignore_ascii_case, spec_strip_prefix, strip_prefix,
};

verus! {

broadcast use vstd::string::group_string_axioms;

/// The command-line flag that starts the process as the settings window.
pub const SETTINGS_WINDOW_ARG: &'static str = "--settings-window";

/// The file whose changes carry one-shot notices to the settings window.
pub const SETTINGS_FLASH_FILE_NAME: &'static str = "settings_flash.json";

/// Shortest gap between two deliveries of notices, in milliseconds.
pub const FLASH_DEBOUNCE_MS: u64 = 200;

// ---------------------------------------------------------------------------
// Custom protocol requests
// ---------------------------------------------------------------------------

/// The HTTP method of a request to the settings page's custom protocol, as
/// far as the routing tells methods apart.
#[derive(Debug, Clone, Copy, PartialEq, Eq, Structural)]
pub enum RequestMethod {
    Options,
    Get,
    Other,
}

/// How a custom-protocol request is answered.
#[derive(Debug)]
pub enum ProtocolRoute {
    /// A CORS preflight: an empty 204 answer.
    Preflight,
    /// A bridge call carried in the request body.
    Bridge,
    /// A method other than GET on a resource: 405.
    MethodNotAllowed,
    /// A GET for the named resource of the settings page.
    Resource(String),
}

pub enum ProtocolRouteView {
    Preflight,
    Bridge,
    MethodNotAllowed,
    Resource(Seq<char>),
}

impl View for ProtocolRoute {
    type V = ProtocolRouteView;

    open spec fn view(&self) -> ProtocolRouteView {
        match self {
            ProtocolRoute::Preflight => ProtocolRouteView::Preflight,
            ProtocolRoute::Bridge => ProtocolRouteView::Bridge,
            ProtocolRoute::MethodNotAllowed => ProtocolRouteView::MethodNotAllowed,
            ProtocolRoute::Resource(r) => ProtocolRouteView::Resource(r@),
        }
    }
}

/// The resource that a GET for `path` (without leading slashes) asks for:
/// `index.html` for the root, and the rest of the path after a leading
/// `settings/` or `localhost/settings/`.
pub open spec fn spec_requested_resource(path: Seq<char>) -> Seq<char> {
    if path.len() == 0 {
        "index.html"@
    } else if spec_strip_prefix(path, "settings/"@) is Some {
        spec_strip_prefix(path, "settings/"@)->Some_0
    } else if spec_strip_prefix(path, "localhost/settings/"@) is Some {
        spec_strip_prefix(path, "localhost/settings/"@)->Some_0
    } else {
        path
    }
}

/// How a request with `method` for `path` (its leading slashes removed) is routed.
pub open spec fn spec_protocol_route(method: RequestMethod, path: Seq<char>) -> ProtocolRouteView {
    if method == RequestMethod::Options {
        ProtocolRouteView::Preflight
    } else if path == "ipc"@ {
        ProtocolRouteView::Bridge
    } else if method != RequestMethod::Get {
        ProtocolRouteView::MethodNotAllowed
    } else {
        ProtocolRouteView::Resource(spec_requested_resource(path))
    }
}

/// Routes a request to the settings page's custom protocol; `path` is the
/// request path with its leading slashes removed.
pub fn route_protocol_request(method: RequestMethod, path: &str) -> (r: ProtocolRoute)
    ensures
        r@ == spec_protocol_route(method, path@),
{
    if method == RequestMethod::Options {
        return ProtocolRoute::Preflight;
    }
    let owned = path.to_owned();
    if owned == "ipc".to_owned() {
        return ProtocolRoute::Bridge;
    }
    if method != RequestMethod::Get {
        return ProtocolRoute::MethodNotAllowed;
    }
    if owned.as_str().unicode_len() == 0 {
        return ProtocolRoute::Resource("index.html".to_owned());
    }
    if let Some(rest) = strip_prefix(path, "settings/") {
        return ProtocolRoute::Resource(rest);
    }
    if let Some(rest) = strip_prefix(path, "localhost/settings/") {
        return ProtocolRoute::Resource(rest);
    }
    ProtocolRoute::Resource(owned)
}

/// What is served when a requested resource is not on disk.
#[derive(Debug, Clone, Copy, PartialEq, Eq, Structural)]
pub enum MissingResource {
    /// The built-in page explaining that the settings resources are missing (200).
    FallbackIndex,
    /// A plain 404.
    NotFound,
}

/// The answer for a resource that could not be found: the built-in page for
/// `index.html`, a 404 for anything else.
pub fn missing_resource(requested: &str) -> (r: MissingResource)
    ensures
        r == (if requested@ == "index.html"@ {
            MissingResource::FallbackIndex
        } else {
            MissingResource::NotFound
        }),
{
    if requested.to_owned() == "index.html".to_owned() {
        MissingResource::FallbackIndex
    } else {
        MissingResource::NotFound
    }
}

/// The content type served for a file with extension `ext`.
pub open spec fn spec_content_type(ext: Option<Seq<char>>) -> Seq<char> {
    match ext {
        Some(e) => if e == "html"@ {
            "text/html; charset=utf-8"@
        } else if e == "css"@ {
            "text/css; charset=utf-8"@
        } else if e == "js"@ {
            "application/javascript; charset=utf-8"@
        } else if e == "json"@ {
            "application/json; charset=utf-8"@
        } else if e == "svg"@ {
            "image/svg+xml"@
        } else if e == "png"@ {
            "image/png"@
        } else if e == "jpg"@ || e == "jpeg"@ {
            "image/jpeg"@
        } else if e == "ico"@ {
            "image/x-icon"@
        } else {
            "application/octet-stream"@
        },
        None => "application/octet-stream"@,
    }
}

/// The content type served for a file with extension `ext` (none when the
/// file has no extension or it is not valid UTF-8).
pub fn content_type_for_extension(ext: Option<&str>) -> (r: &'static str)
    ensures
        r@ == spec_content_type(match ext {
            Some(e) => Some(e@),
            None => None,
        }),
{
    match ext {
        Some(e) => {
            let e = e.to_owned();
            if e == "html".to_owned() {
                "text/html; charset=utf-8"
            } else if e == "css".to_owned() {
                "text/css; charset=utf-8"
            } else if e == "js".to_owned() {
                "application/javascript; charset=utf-8"
            } else if e == "json".to_owned() {
                "application/json; charset=utf-8"
            } else if e == "svg".to_owned() {
                "image/svg+xml"
            } else if e == "png".to_owned() {
                "image/png"
            } else if e == "jpg".to_owned() || e == "jpeg".to_owned() {
                "image/jpeg"
            } else if e == "ico".to_owned() {
                "image/x-icon"
            } else {
                "application/octet-stream"
            }
        },
        None => "application/octet-stream",
    }
}

// ---------------------------------------------------------------------------
// Custom protocol answers
// ---------------------------------------------------------------------------

/// The page served in place of `index.html` when the settings resources are
/// not installed.
pub const SETTINGS_NOT_FOUND_HTML: &'static str = r#"<!doctype html>
<html lang="en">
  <head>
    <meta charset="utf-8" />
    <meta name="viewport" content="width=device-width, initial-scale=1" />
    <title>Vocoflow Settings</title>
    <style>
      body {
        margin: 0;
        padding: 24px;
        font-family: Inter, Segoe UI, Arial, sans-serif;
        background: #111827;
        color: #e5e7eb;
      }
      .card {
        border: 1px solid #374151;
        border-radius: 10px;
        padding: 16px;
        background: #1f2937;
      }
      code {
        color: #93c5fd;
      }
    </style>
  </head>
  <body>
    <div class="card">
      <h1>Settings resources missing</h1>
      <p>
        Could not load <code>resources/settings_window/index.html</code>.
        Please reinstall the app or contact support.
      </p>
    </div>
  </body>
</html>
"#;

/// The body of the answer to a method other than GET on a resource.
pub const METHOD_NOT_ALLOWED_BODY: &'static str = "{\"ok\":false,\"kind\":\"error.method_not_allowed\"}";

/// The body of the answer when a resource file exists but cannot be read.
pub const INTERNAL_ERROR_BODY: &'static str = "Internal Server Error";

/// The body of the answer for a resource that does not exist.
pub const NOT_FOUND_BODY: &'static str = "Not Found";

/// The content type of bridge answers, preflights and refusals.
pub const JSON_CONTENT_TYPE: &'static str = "application/json";

/// The content type of the plain-text error answers.
pub const PLAIN_TEXT_CONTENT_TYPE: &'static str = "text/plain; charset=utf-8";

/// The content type of the built-in fallback page.
pub const HTML_CONTENT_TYPE: &'static str = "text/html; charset=utf-8";

/// What became of a requested resource file.
pub enum ResourceLookup {
    /// The file was found and read: the extension of its path (none when it
    /// has none or it is not valid UTF-8) and its bytes.
    Read { extension: Option<String>, bytes: Vec<u8> },
    /// The file was found but reading it failed.
    ReadFailed,
    /// No candidate location holds the file.
    NotFound,
}

/// What the app fetched for a routed request: nothing (preflight, refusal),
/// the bridge's reply (its status and JSON body), or the lookup of the
/// requested resource.
pub enum Served {
    Nothing,
    Bridge { status: u16, body: String },
    Resource(ResourceLookup),
}

pub enum ResourceLookupView {
    Read { extension: Option<Seq<char>>, bytes: Seq<u8> },
    ReadFailed,
    NotFound,
}

pub enum ServedView {
    Nothing,
    Bridge { status: u16, body: Seq<char> },
    Resource(ResourceLookupView),
}

impl View for ResourceLookup {
    type V = ResourceLookupView;

    open spec fn view(&self) -> ResourceLookupView {
        match self {
            ResourceLookup::Read { extension, bytes } => ResourceLookupView::Read {
                extension: match extension {
                    Some(e) => Some(e@),
                    None => None,
                },
                bytes: bytes@,
            },
            ResourceLookup::ReadFailed => ResourceLookupView::ReadFailed,
            ResourceLookup::NotFound => ResourceLookupView::NotFound,
        }
    }
}

impl View for Served {
    type V = ServedView;

    open spec fn view(&self) -> ServedView {
        match self {
            Served::Nothing => ServedView::Nothing,
            Served::Bridge { status, body } => ServedView::Bridge { status: *status, body: body@ },
            Served::Resource(l) => ServedView::Resource(l@),
        }
    }
}

/// The answer to a custom-protocol request: status, headers (name and value,
/// in order) and body.
pub struct ProtocolAnswer {
    pub status: u16,
    pub headers: Vec<(String, String)>,
    pub body: Vec<u8>,
}

pub struct ProtocolAnswerView {
    pub status: u16,
    pub headers: Seq<(Seq<char>, Seq<char>)>,
    pub body: Seq<u8>,
}

impl View for ProtocolAnswer {
    type V = ProtocolAnswerView;

    open spec fn view(&self) -> ProtocolAnswerView {
        ProtocolAnswerView {
            status: self.status,
            headers: self.headers@.map_values(|h: (String, String)| (h.0@, h.1@)),
            body: self.body@,
        }
    }
}

/// The headers of every answer: the content type, then the CORS headers that
/// let the settings page call the protocol from any origin with GET, POST or
/// OPTIONS and a `content-type` header.
pub open spec fn spec_answer_headers(content_type: Seq<char>) -> Seq<(Seq<char>, Seq<char>)> {
    seq![
        ("Content-Type"@, content_type),
        ("Access-Control-Allow-Origin"@, "*"@),
        ("Access-Control-Allow-Methods"@, "GET, POST, OPTIONS"@),
        ("Access-Control-Allow-Headers"@, "content-type"@),
    ]
}

/// An answer with `status`, `content_type` and `body`.
pub open spec fn spec_answer(status: u16, content_type: Seq<char>, body: Seq<u8>) -> ProtocolAnswerView {
    ProtocolAnswerView { status, headers: spec_answer_headers(content_type), body }
}

/// Whether what was fetched is what the route calls for.
pub open spec fn spec_served_fits(route: ProtocolRouteView, served: ServedView) -> bool {
    match route {
        ProtocolRouteView::Preflight => served is Nothing,
        ProtocolRouteView::MethodNotAllowed => served is Nothing,
        ProtocolRouteView::Bridge => served is Bridge,
        ProtocolRouteView::Resource(_) => served is Resource,
    }
}

/// The answer to a routed request given what was fetched for it:
/// - a preflight gets 204 with an empty JSON body;
/// - a bridge call gets the bridge's status and body, as JSON;
/// - a method other than GET on a resource gets 405 and a fixed JSON error;
/// - a resource that was read gets 200, the content type of its extension and its bytes;
/// - a resource that could not be read gets 500 "Internal Server Error";
/// - a missing `index.html` gets 200 and the built-in page; any other missing
///   resource gets 404 "Not Found".
pub open spec fn spec_protocol_answer(route: ProtocolRouteView, served: ServedView) -> ProtocolAnswerView {
    match route {
        ProtocolRouteView::Preflight => spec_answer(204, JSON_CONTENT_TYPE@, Seq::empty()),
        ProtocolRouteView::MethodNotAllowed => spec_answer(
            405,
            JSON_CONTENT_TYPE@,
            encode_utf8(METHOD_NOT_ALLOWED_BODY@),
        ),
        ProtocolRouteView::Bridge => match served {
            ServedView::Bridge { status, body } => spec_answer(status, JSON_CONTENT_TYPE@, encode_utf8(body)),
            _ => spec_answer(500, JSON_CONTENT_TYPE@, Seq::empty()),
        },
        ProtocolRouteView::Resource(requested) => match served {
            ServedView::Resource(ResourceLookupView::Read { extension, bytes }) => spec_answer(
                200,
                spec_content_type(extension),
                bytes,
            ),
            ServedView::Resource(ResourceLookupView::ReadFailed) => spec_answer(
                500,
                PLAIN_TEXT_CONTENT_TYPE@,
                encode_utf8(INTERNAL_ERROR_BODY@),
            ),
            ServedView::Resource(ResourceLookupView::NotFound) => if requested == "index.html"@ {
                spec_answer(200, HTML_CONTENT_TYPE@, encode_utf8(SETTINGS_NOT_FOUND_HTML@))
            } else {
                spec_answer(404, PLAIN_TEXT_CONTENT_TYPE@, encode_utf8(NOT_FOUND_BODY@))
            },
            _ => spec_answer(500, JSON_CONTENT_TYPE@, Seq::empty()),
        },
    }
}

/// The bytes of `s`, UTF-8 encoded.
fn utf8_bytes(s: &str) -> (r: Vec<u8>)
    ensures
        r@ == encode_utf8(s@),
{
    slice_to_vec(s.as_bytes())
}

/// An answer with `status`, `content_type`, the CORS headers and `body`.
fn answer(status: u16, content_type: &str, body: Vec<u8>) -> (r: ProtocolAnswer)
    ensures
        r@ == spec_answer(status, content_type@, body@),
{
    let mut headers: Vec<(String, String)> = Vec::new();
    headers.push(("Content-Type".to_owned(), content_type.to_owned()));
    headers.push(("Access-Control-Allow-Origin".to_owned(), "*".to_owned()));
    headers.push(("Access-Control-Allow-Methods".to_owned(), "GET, POST, OPTIONS".to_owned()));
    headers.push(("Access-Control-Allow-Headers".to_owned(), "content-type".to_owned()));
    let r = ProtocolAnswer { status, headers, body };
    assert(r@.headers =~= spec_answer_headers(content_type@));
    r
}

/// Answers a routed custom-protocol request, given what the app fetched for
/// its route (see `spec_protocol_answer`).
pub fn protocol_answer(route: &ProtocolRoute, served: Served) -> (r: ProtocolAnswer)
    requires
        spec_served_fits(route@, served@),
    ensures
        r@ == spec_protocol_answer(route@, served@),
{
    match route {
        ProtocolRoute::Preflight => answer(204, JSON_CONTENT_TYPE, Vec::new()),
        ProtocolRoute::MethodNotAllowed => answer(405, JSON_CONTENT_TYPE, utf8_bytes(METHOD_NOT_ALLOWED_BODY)),
        ProtocolRoute::Bridge => match served {
            Served::Bridge { status, body } => answer(status, JSON_CONTENT_TYPE, utf8_bytes(body.as_str())),
            _ => answer(500, JSON_CONTENT_TYPE, Vec::new()),
        },
        ProtocolRoute::Resource(requested) => match served {
            Served::Resource(ResourceLookup::Read { extension, bytes }) => {
                let content_type = match &extension {
                    Some(e) => content_type_for_extension(Some(e.as_str())),
                    None => content_type_for_extension(None),
                };
                answer(200, content_type, bytes)
            },
            Served::Resource(ResourceLookup::ReadFailed) => answer(
                500,
                PLAIN_TEXT_CONTENT_TYPE,
                utf8_bytes(INTERNAL_ERROR_BODY),
            ),
            Served::Resource(ResourceLookup::NotFound) => match missing_resource(requested.as_str()) {
                MissingResource::FallbackIndex => answer(200, HTML_CONTENT_TYPE, utf8_bytes(SETTINGS_NOT_FOUND_HTML)),
                MissingResource::NotFound => answer(404, PLAIN_TEXT_CONTENT_TYPE, utf8_bytes(NOT_FOUND_BODY)),
            },
            _ => answer(500, JSON_CONTENT_TYPE, Vec::new()),
        },
    }
}

// ---------------------------------------------------------------------------
// Notice-file watching
// ---------------------------------------------------------------------------

/// Whether a file-system event concerns the notices file: it creates or
/// modifies files, and one of the file names (those that are valid UTF-8) is
/// `settings_flash.json` up to ASCII case.
pub open spec fn spec_is_settings_flash_event(creates_or_modifies: bool, file_names: Seq<Option<Seq<char>>>) -> bool {
    creates_or_modifies && exists|i: int| 0 <= i < file_names.len() && #[trigger] spec_names_flash_file(file_names[i])
}

/// Whether a file name (when valid UTF-8) is the notices file, up to ASCII case.
pub open spec fn spec_names_flash_file(name: Option<Seq<char>>) -> bool {
    name is Some && spec_eq_ignore_ascii_case(name->Some_0, SETTINGS_FLASH_FILE_NAME@)
}

/// Whether a file-system event concerns the notices file.
pub fn is_settings_flash_event(creates_or_modifies: bool, file_names: &Vec<Option<String>>) -> (r: bool)
    ensures
        r == spec_is_settings_flash_event(creates_or_modifies, file_names.deep_view()),
{
    if !creates_or_modifies {
        return false;
    }
    let n = file_names.len();
    for i in 0..n
        invariant
            n == file_names.len(),
            creates_or_modifies,
            forall|j: int| 0 <= j < i ==> !#[trigger] spec_names_flash_file(file_names.deep_view()[j]),
    {
        if let Some(name) = &file_names[i] {
            if eq_ignore_ascii_case(name.as_str(), SETTINGS_FLASH_FILE_NAME) {
                proof {
                    assert(file_names.deep_view()[i as int] == Some(name@));
                    assert(spec_names_flash_file(file_names.deep_view()[i as int]));
                }
                return true;
            }
        }
    }
    false
}

/// Delivery of notices, at most once per 200 ms.
pub struct FlashWatcher {
    pub last_emit_at_ms: u64,
}

/// A watcher started at `now_ms`: its last delivery counts as one second before.
pub open spec fn spec_new_watcher(now_ms: u64) -> u64 {
    if now_ms >= 1000 {
        (now_ms - 1000) as u64
    } else {
        now_ms
    }
}

/// The outcome of an event at `now_ms` for a watcher that last delivered at
/// `last`: whether notices are delivered now, and the new last delivery time.
pub open spec fn spec_watch(last: u64, is_flash_event: bool, now_ms: u64) -> (bool, u64) {
    if is_flash_event && now_ms >= last && now_ms - last >= FLASH_DEBOUNCE_MS {
        (true, now_ms)
    } else {
        (false, last)
    }
}

impl FlashWatcher {
    /// A watcher started at `now_ms` (a monotonic clock, in milliseconds).
    pub fn new(now_ms: u64) -> (r: Self)
        ensures
            r.last_emit_at_ms == spec_new_watcher(now_ms),
    {
        let last = if now_ms >= 1000 {
            now_ms - 1000
        } else {
            now_ms
        };
        FlashWatcher { last_emit_at_ms: last }
    }

    /// Handles a file-system event at `now_ms`: notices are delivered for an
    /// event on the notices file when at least 200 ms passed since the last
    /// delivery (a clock reading before the last delivery counts as no time).
    pub fn on_event(&mut self, is_flash_event: bool, now_ms: u64) -> (r: bool)
        ensures
            (r, final(self).last_emit_at_ms) == spec_watch(old(self).last_emit_at_ms, is_flash_event, now_ms),
    {
        if !is_flash_event {
            return false;
        }
        let elapsed = if now_ms >= self.last_emit_at_ms {
            now_ms - self.last_emit_at_ms
        } else {
            0
        };
        if elapsed < FLASH_DEBOUNCE_MS {
            return false;
        }
        self.last_emit_at_ms = now_ms;
        true
    }
}

/// Two deliveries are at least 200 ms apart: after a delivery at `t1`, no
/// event before `t1 + 200` delivers again.
pub proof fn law_deliveries_spaced(last: u64, t1: u64, t2: u64, f1: bool, f2: bool)
    requires
        spec_watch(last, f1, t1).0,
        spec_watch(spec_watch(last, f1, t1).1, f2, t2).0,
    ensures
        t2 >= t1 + FLASH_DEBOUNCE_MS,
{
}

// ---------------------------------------------------------------------------
// Scripts waiting for the settings page, and showing the window
// ---------------------------------------------------------------------------

/// Scripts queued for the settings page, oldest first.
pub struct ScriptQueue {
    pub scripts: Vec<String>,
}

impl ScriptQueue {
    /// An empty queue.
    pub fn new() -> (r: Self)
        ensures
            r.scripts.deep_view() == Seq::<Seq<char>>::empty(),
    {
        let r = ScriptQueue { scripts: Vec::new() };
        assert(r.scripts.deep_view() =~= Seq::<Seq<char>>::empty());
        r
    }
}

/// Queues a script to run in the settings page.
pub fn queue_script_eval(queue: &mut ScriptQueue, script: String)
    ensures
        final(queue).scripts.deep_view() == old(queue).scripts.deep_view().push(script@),
{
    let ghost before = queue.scripts.deep_view();
    queue.scripts.push(script);
    proof {
        assert(queue.scripts.deep_view() =~= before.push(script@));
    }
}

/// Takes every queued script, oldest first, leaving the queue empty.
pub fn drain_queued_scripts(queue: &mut ScriptQueue) -> (r: Vec<String>)
    ensures
        r.deep_view() == old(queue).scripts.deep_view(),
        final(queue).scripts.deep_view() == Seq::<Seq<char>>::empty(),
{
    let mut taken: Vec<String> = Vec::new();
    std::mem::swap(&mut taken, &mut queue.scripts);
    assert(queue.scripts.deep_view() =~= Seq::<Seq<char>>::empty());
    taken
}

/// Whether the settings window is shown, and whether the page reported that
/// its UI is ready and the window has not acted on it yet.
pub struct WindowState {
    pub window_shown: bool,
    pub ui_ready: bool,
}

impl WindowState {
    /// A hidden window whose page has not reported readiness.
    pub fn new() -> (r: Self)
        ensures
            !r.window_shown && !r.ui_ready,
    {
        WindowState { window_shown: false, ui_ready: false }
    }
}

/// Records that the settings page finished drawing.
pub fn mark_settings_window_ui_ready(state: &mut WindowState)
    ensures
        final(state).ui_ready,
        final(state).window_shown == old(state).window_shown,
{
    state.ui_ready = true;
}

/// Decides, while the event loop is idle, whether to show the window now: a
/// hidden window whose page reported readiness is shown once (when it exists);
/// the readiness report is consumed whenever the window is still hidden.
pub fn show_window_when_ready(state: &mut WindowState, has_window: bool) -> (r: bool)
    ensures
        r == (!old(state).window_shown && old(state).ui_ready && has_window),
        final(state).window_shown == (old(state).window_shown || r),
        final(state).ui_ready == (old(state).window_shown && old(state).ui_ready),
{
    if state.window_shown {
        return false;
    }
    let was_ready = state.ui_ready;
    state.ui_ready = false;
    if was_ready && has_window {
        state.window_shown = true;
        true
    } else {
        false
    }
}

/// Whether the process was started as the settings window (one of its
/// arguments is `--settings-window`).
pub fn should_run_as_settings_process(args: &Vec<String>) -> (r: bool)
    ensures
        r == exists|i: int| 0 <= i < args.len() && #[trigger] args@[i]@ == SETTINGS_WINDOW_ARG@,
{
    let flag = SETTINGS_WINDOW_ARG.to_owned();
    let n = args.len();
    for i in 0..n
        invariant
            n == args.len(),
            flag@ == SETTINGS_WINDOW_ARG@,
            forall|j: int| 0 <= j < i ==> args@[j]@ != SETTINGS_WINDOW_ARG@,
    {
        if args[i] == flag {
            return true;
        }
    }
    false
}

} // verus!
