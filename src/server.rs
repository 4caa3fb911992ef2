//! Routing of requests, and the decisions of the command and screenshot handlers.
//!
//! Talking to the web view (finding the surface, handing it a script, waiting) is left
//! to the caller: these functions take what came back as plain values.
use vstd::prelude::*;
use crate::opt_text;
use crate::base64::{base64_decode, decode_spec, Base64Error};
use crate::json::{is_plain_json_char, lemma_plain_text_quoted, json_member_text, json_parse_error, json_quoted, json_str_member, member_text, parse_error, quote, str_member};
use crate::response::{error_json, cors_headers, cors_response, error_response, error_view, json_response, json_view, png_headers, png_response, BodyView, HttpResponse, ResponseView};

verus! {

/// The local port the service listens on.
pub const PORT: u16 = 9876;

pub const HEALTH_PATH: &'static str = "/automation/health";

pub const EXECUTE_PATH: &'static str = "/automation/execute";

pub const SCREENSHOT_PATH: &'static str = "/automation/screenshot";

/// The body of a health answer: the port and the service's version.
pub const HEALTH_BODY: &'static str = "{\"port\":9876,\"status\":\"ok\",\"version\":\"1.0.0\"}";

/// The prefix that a delivered screenshot payload carries.
pub const PNG_DATA_PREFIX: &'static str = "data:image/png;base64,";

pub const NOT_FOUND: &'static str = "Not found";

pub const INVALID_JSON: &'static str = "Invalid JSON: ";

pub const MISSING_COMMAND: &'static str = "Missing 'command' field";

pub const BODY_READ_FAILED: &'static str = "Failed to read body: ";

pub const TARGET_NOT_FOUND: &'static str = "Main window not found";

pub const EXECUTE_DISPATCH_FAILED: &'static str = "Script execution failed: ";

pub const CAPTURE_DISPATCH_FAILED: &'static str = "Screenshot request failed: ";

pub const SCREENSHOT_UNAVAILABLE: &'static str =
    "Screenshot unavailable: make sure the page's capture capability (html2canvas) is loaded.";

pub const UNEXPECTED_FORMAT: &'static str =
    "Unexpected screenshot format: expected a data:image/png;base64 URL";

pub const DECODE_FAILED: &'static str = "Base64 decode failed: ";

/// The acknowledgement of a dispatched command, after its quoted name.
pub const ACK_TAIL: &'static str = ",\"message\":\"Command executed\",\"success\":true}";

/// The script that runs a command in the page, up to the command's name.
pub const EXECUTE_HEAD: &'static str = "
        (async function() {
            if (typeof window.__TAURI_AUTOMATION__ === 'undefined') {
                console.error('[Automation] Not initialized');
                return;
            }
            try {
                const result = await window.__TAURI_AUTOMATION__.execute(";

/// The script that runs a command, between the command's quoted name and its arguments.
pub const EXECUTE_MID: &'static str = ", ";

/// The script that runs a command, after its arguments.
pub const EXECUTE_TAIL: &'static str = ");
                window.__TAURI_AUTOMATION__._lastResult = { success: true, result: result };
            } catch (e) {
                window.__TAURI_AUTOMATION__._lastResult = { success: false, error: e.message || String(e) };
            }
        })();
        ";

/// The script that asks the page to capture itself and deliver the image.
pub const CAPTURE_SCRIPT: &'static str = "
        (async function() {
            if (typeof window.__TAURI_AUTOMATION__ === 'undefined') {
                console.error('[Automation] Not initialized');
                return;
            }
            try {
                await window.__TAURI_AUTOMATION__.captureAndSend();
            } catch (e) {
                console.error('[Automation] Screenshot failed:', e);
            }
        })();
    ";

/// The script that runs a command and reports its outcome as the script's value, up
/// to the command's name.
pub const EVAL_HEAD: &'static str = "
        (async function() {
            try {
                if (typeof window.__TAURI_AUTOMATION__ === 'undefined') {
                    return JSON.stringify({ error: 'Automation not initialized. Call initAutomation() first.' });
                }
                const result = await window.__TAURI_AUTOMATION__.execute(";

/// The script that reports a command's outcome, after its arguments.
pub const EVAL_TAIL: &'static str = ");
                return JSON.stringify({ success: true, result: result });
            } catch (e) {
                return JSON.stringify({ error: e.message || String(e) });
            }
        })()
        ";

/// The method of a request, as far as routing tells methods apart.
#[derive(Debug, Clone, Copy, PartialEq, Eq, Structural)]
pub enum Method {
    Get,
    Post,
    Options,
    Other,
}

/// The handler a request goes to.
#[derive(Debug, Clone, Copy, PartialEq, Eq, Structural)]
pub enum Route {
    Health,
    Execute,
    Screenshot,
    Preflight,
    NotFound,
}

/// How handing a script to the web view went.
pub enum Dispatch {
    /// The script was handed over.
    Sent,
    /// There is no surface named "main".
    NoTarget,
    /// Handing it over failed, with the host's message.
    Failed(String),
}

/// A command ready to be handed to the web view.
pub struct Directive {
    /// The command's name.
    pub command: String,
    /// The script that runs it in the page.
    pub script: String,
}

/// The routing table: exact method and path.
pub open spec fn route_of(method: Method, path: Seq<char>) -> Route {
    match method {
        Method::Get => if path == HEALTH_PATH@ {
            Route::Health
        } else if path == SCREENSHOT_PATH@ {
            Route::Screenshot
        } else {
            Route::NotFound
        },
        Method::Post => if path == EXECUTE_PATH@ {
            Route::Execute
        } else {
            Route::NotFound
        },
        Method::Options => Route::Preflight,
        Method::Other => Route::NotFound,
    }
}

/// Whether `s` starts with `p`.
pub open spec fn has_prefix(s: Seq<char>, p: Seq<char>) -> bool {
    p.len() <= s.len() && s.take(p.len() as int) == p
}

/// The script that runs `command` with the JSON arguments `args` in the page. The name
/// goes in as a JSON string literal, which is also a script string literal.
pub open spec fn execute_script_text(command: Seq<char>, args: Seq<char>) -> Seq<char> {
    EXECUTE_HEAD@ + json_quoted(command) + EXECUTE_MID@ + args + EXECUTE_TAIL@
}

/// The script that runs `command` and makes its outcome the script's value.
pub open spec fn eval_script_text(command: Seq<char>, args: Seq<char>) -> Seq<char> {
    EVAL_HEAD@ + json_quoted(command) + EXECUTE_MID@ + args + EVAL_TAIL@
}

/// The arguments of a request body as JSON text: its `args` member, or `{}`.
pub open spec fn args_of(body: Seq<char>) -> Seq<char> {
    match json_member_text(body, "args"@) {
        Some(t) => t,
        None => "{}"@,
    }
}

/// The acknowledgement of a command: `{"command":..,"message":"Command executed","success":true}`.
pub open spec fn ack_json(command: Seq<char>) -> Seq<char> {
    "{\"command\":"@ + json_quoted(command) + ACK_TAIL@
}

/// What a request body to the execute route leads to: an error response, or the command
/// and the script to hand over. A `command` that is not a string, or is empty, counts as
/// missing.
pub open spec fn execute_plan(body: Seq<char>) -> Result<(Seq<char>, Seq<char>), ResponseView> {
    match json_parse_error(body) {
        Some(m) => Err(error_view(400, INVALID_JSON@ + m)),
        None => match json_str_member(body, "command"@) {
            None => Err(error_view(400, MISSING_COMMAND@)),
            Some(c) => if c.len() == 0 {
                Err(error_view(400, MISSING_COMMAND@))
            } else {
                Ok((c, execute_script_text(c, args_of(body))))
            },
        },
    }
}

/// The answer to a screenshot request, given what was taken from the screenshot slot.
pub open spec fn screenshot_view(taken: Option<Seq<char>>) -> ResponseView {
    match taken {
        None => error_view(500, SCREENSHOT_UNAVAILABLE@),
        Some(d) => if !has_prefix(d, PNG_DATA_PREFIX@) {
            error_view(500, UNEXPECTED_FORMAT@)
        } else {
            match decode_spec(d.skip(PNG_DATA_PREFIX@.len() as int)) {
                Ok(b) => ResponseView { status: 200, headers: png_headers(), body: BodyView::Png(b) },
                Err(c) => error_view(
                    500,
                    DECODE_FAILED@ + Base64Error::InvalidCharacter(c).message_spec(),
                ),
            }
        },
    }
}

/// The answer to a request on a route that needs no web view; `None` for the routes
/// that do.
pub open spec fn plain_view(route: Route) -> Option<ResponseView> {
    match route {
        Route::Health => Some(json_view(200, HEALTH_BODY@)),
        Route::Preflight => Some(
            ResponseView { status: 204, headers: cors_headers(), body: BodyView::Empty },
        ),
        Route::NotFound => Some(error_view(404, NOT_FOUND@)),
        Route::Execute | Route::Screenshot => None,
    }
}

/// Every `OPTIONS` request, whatever its path, is answered with 204, the three CORS
/// headers and no body.
pub proof fn lemma_options_always_preflight(path: Seq<char>)
    ensures
        route_of(Method::Options, path) == Route::Preflight,
        plain_view(route_of(Method::Options, path)) == Some(
            ResponseView { status: 204, headers: cors_headers(), body: BodyView::Empty },
        ),
{
}

/// A body that is a JSON document whose `command` member is a non-empty string `c` leads
/// to the script that runs `c`, and once that is handed over the answer is 200 with
/// `{"command":<c quoted>,"message":"Command executed","success":true}`. For a name with
/// no character that JSON escapes, the body holds `"command":"c"` literally.
pub proof fn lemma_execute_acknowledged(body: Seq<char>, c: Seq<char>)
    requires
        json_parse_error(body) is None,
        json_str_member(body, "command"@) == Some(c),
        c.len() > 0,
    ensures
        execute_plan(body) == Ok::<(Seq<char>, Seq<char>), ResponseView>(
            (c, execute_script_text(c, args_of(body))),
        ),
        json_view(200, ack_json(c)).status == 200,
        ack_json(c) == "{\"command\":"@ + json_quoted(c) + ACK_TAIL@,
        (forall|i: int| 0 <= i < c.len() ==> #[trigger] is_plain_json_char(c[i])) ==> ack_json(c)
            == "{\"command\":"@ + (seq!['"'] + c + seq!['"']) + ACK_TAIL@,
{
    if forall|i: int| 0 <= i < c.len() ==> #[trigger] is_plain_json_char(c[i]) {
        lemma_plain_text_quoted(c);
    }
}

/// A request that no route matches is answered with 404 and `{"error":"Not found"}`.
pub proof fn lemma_not_found_body()
    ensures
        error_view(404, NOT_FOUND@).status == 404,
        error_json(NOT_FOUND@) == "{\"error\":\"Not found\"}"@,
{
    reveal_strlit("Not found");
    reveal_strlit("{\"error\":");
    reveal_strlit("}");
    reveal_strlit("{\"error\":\"Not found\"}");
    let m = NOT_FOUND@;
    assert forall|i: int| 0 <= i < m.len() implies #[trigger] is_plain_json_char(m[i]) by {}
    lemma_plain_text_quoted(m);
    assert(error_json(m) =~= "{\"error\":\"Not found\"}"@);
}

fn same_text(a: &str, b: &str) -> (r: bool)
    ensures
        r == (a@ == b@),
{
    String::from_str(a) == String::from_str(b)
}

/// Picks the handler for a request by its method and path.
pub fn route(method: Method, path: &str) -> (r: Route)
    ensures
        r == route_of(method, path@),
{
    match method {
        Method::Get => if same_text(path, HEALTH_PATH) {
            Route::Health
        } else if same_text(path, SCREENSHOT_PATH) {
            Route::Screenshot
        } else {
            Route::NotFound
        },
        Method::Post => if same_text(path, EXECUTE_PATH) {
            Route::Execute
        } else {
            Route::NotFound
        },
        Method::Options => Route::Preflight,
        Method::Other => Route::NotFound,
    }
}

/// The answer to a health probe: the port and the version.
pub fn health_response() -> (r: HttpResponse)
    ensures
        r@ == json_view(200, HEALTH_BODY@),
{
    json_response(String::from_str(HEALTH_BODY))
}

/// The answer to a request that no route matches.
pub fn not_found_response() -> (r: HttpResponse)
    ensures
        r@ == error_view(404, NOT_FOUND@),
{
    error_response(NOT_FOUND, 404)
}

/// The answer to an execute request whose body could not be read.
pub fn read_failure_response(detail: &str) -> (r: HttpResponse)
    ensures
        r@ == error_view(400, BODY_READ_FAILED@ + detail@),
{
    let mut m = String::from_str(BODY_READ_FAILED);
    m.append(detail);
    error_response(m.as_str(), 400)
}

/// The script that runs `command` with the JSON arguments `args_json` in the page.
pub fn execute_script(command: &str, args_json: &str) -> (r: String)
    ensures
        r@ == execute_script_text(command@, args_json@),
{
    let mut s = String::from_str(EXECUTE_HEAD);
    s.append(quote(command).as_str());
    s.append(EXECUTE_MID);
    s.append(args_json);
    s.append(EXECUTE_TAIL);
    s
}

/// The script that runs `command` with the JSON arguments `args_json` and makes its
/// outcome, as JSON text, the value of the script.
pub fn execute_command_script(command: &str, args_json: &str) -> (r: String)
    ensures
        r@ == eval_script_text(command@, args_json@),
{
    let mut s = String::from_str(EVAL_HEAD);
    s.append(quote(command).as_str());
    s.append(EXECUTE_MID);
    s.append(args_json);
    s.append(EVAL_TAIL);
    s
}

/// The script that asks the page to capture itself and deliver the image.
pub fn capture_script() -> (r: String)
    ensures
        r@ == CAPTURE_SCRIPT@,
{
    String::from_str(CAPTURE_SCRIPT)
}

/// Reads a request body to the execute route: it must be a JSON document whose
/// `command` member is a non-empty string. On success gives the command and the script that runs
/// it with the `args` member (`{}` where there is none); otherwise the 400 response.
/// Nothing is handed to the web view here.
pub fn prepare_execute(body: &str) -> (r: Result<Directive, HttpResponse>)
    ensures
        match r {
            Ok(d) => execute_plan(body@) == Ok::<(Seq<char>, Seq<char>), ResponseView>(
                (d.command@, d.script@),
            ),
            Err(e) => execute_plan(body@) == Err::<(Seq<char>, Seq<char>), ResponseView>(e@),
        },
{
    match parse_error(body) {
        Some(m) => {
            let mut msg = String::from_str(INVALID_JSON);
            msg.append(m.as_str());
            Err(error_response(msg.as_str(), 400))
        },
        None => match str_member(body, "command") {
            None => Err(error_response(MISSING_COMMAND, 400)),
            Some(command) => if command.as_str().is_empty() {
                Err(error_response(MISSING_COMMAND, 400))
            } else {
                let args = match member_text(body, "args") {
                    Some(t) => t,
                    None => String::from_str("{}"),
                };
                let script = execute_script(command.as_str(), args.as_str());
                Ok(Directive { command, script })
            },
        },
    }
}

/// The acknowledgement body for a command that was handed over.
pub fn ack_body(command: &str) -> (r: String)
    ensures
        r@ == ack_json(command@),
{
    let mut t = String::from_str("{\"command\":");
    t.append(quote(command).as_str());
    t.append(ACK_TAIL);
    t
}

/// The answer to an execute request once its directive was handed to the web view (or
/// not). A handed-over command is acknowledged whatever the page makes of it.
pub fn execute_reply(command: &str, outcome: Dispatch) -> (r: HttpResponse)
    ensures
        r@ == match outcome {
            Dispatch::Sent => json_view(200, ack_json(command@)),
            Dispatch::NoTarget => error_view(500, TARGET_NOT_FOUND@),
            Dispatch::Failed(e) => error_view(500, EXECUTE_DISPATCH_FAILED@ + e@),
        },
{
    match outcome {
        Dispatch::Sent => json_response(ack_body(command)),
        Dispatch::NoTarget => error_response(TARGET_NOT_FOUND, 500),
        Dispatch::Failed(e) => {
            let mut m = String::from_str(EXECUTE_DISPATCH_FAILED);
            m.append(e.as_str());
            error_response(m.as_str(), 500)
        },
    }
}

/// Strips `prefix` from the front of `s`, if `s` starts with it.
fn strip_text_prefix<'a>(s: &'a str, prefix: &str) -> (r: Option<&'a str>)
    ensures
        match r {
            Some(t) => has_prefix(s@, prefix@) && t@ == s@.skip(prefix@.len() as int),
            None => !has_prefix(s@, prefix@),
        },
{
    let n = s.unicode_len();
    let m = prefix.unicode_len();
    if n < m {
        return None;
    }
    let mut i: usize = 0;
    while i < m
        invariant
            m == prefix@.len(),
            n == s@.len(),
            m <= n,
            i <= m,
            forall|j: int| 0 <= j < i ==> s@[j] == prefix@[j],
        decreases m - i,
    {
        if s.get_char(i) != prefix.get_char(i) {
            assert(s@.take(m as int)[i as int] != prefix@[i as int]);
            return None;
        }
        i = i + 1;
    }
    assert(s@.take(m as int) =~= prefix@);
    Some(s.substring_char(m, n))
}

/// The answer to a screenshot request, given what was taken from the screenshot slot
/// after the capture was requested: the decoded PNG, or a 500 error saying why not.
pub fn screenshot_response(taken: Option<String>) -> (r: HttpResponse)
    ensures
        r@ == screenshot_view(opt_text(taken)),
{
    match taken {
        None => error_response(SCREENSHOT_UNAVAILABLE, 500),
        Some(data) => match strip_text_prefix(data.as_str(), PNG_DATA_PREFIX) {
            None => error_response(UNEXPECTED_FORMAT, 500),
            Some(encoded) => match base64_decode(encoded) {
                Ok(bytes) => png_response(bytes),
                Err(e) => {
                    let mut m = String::from_str(DECODE_FAILED);
                    m.append(e.message().as_str());
                    error_response(m.as_str(), 500)
                },
            },
        },
    }
}

/// The answer to a screenshot request: a failure to hand the capture script to the web
/// view, or else what `screenshot_response` makes of the slot's content.
pub fn screenshot_reply(outcome: Dispatch, taken: Option<String>) -> (r: HttpResponse)
    ensures
        r@ == match outcome {
            Dispatch::Sent => screenshot_view(opt_text(taken)),
            Dispatch::NoTarget => error_view(500, TARGET_NOT_FOUND@),
            Dispatch::Failed(e) => error_view(500, CAPTURE_DISPATCH_FAILED@ + e@),
        },
{
    match outcome {
        Dispatch::Sent => screenshot_response(taken),
        Dispatch::NoTarget => error_response(TARGET_NOT_FOUND, 500),
        Dispatch::Failed(e) => {
            let mut m = String::from_str(CAPTURE_DISPATCH_FAILED);
            m.append(e.as_str());
            error_response(m.as_str(), 500)
        },
    }
}

/// The answer to a request on a route that needs no web view.
pub fn answer_plain(route: Route) -> (r: Option<HttpResponse>)
    ensures
        match r {
            Some(x) => plain_view(route) == Some(x@),
            None => plain_view(route) is None,
        },
{
    match route {
        Route::Health => Some(health_response()),
        Route::Preflight => Some(cors_response()),
        Route::NotFound => Some(not_found_response()),
        Route::Execute | Route::Screenshot => None,
    }
}

} // verus!
