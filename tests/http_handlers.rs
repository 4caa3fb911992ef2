use webview_automation::response::{
    cors_response, error_response, json_response, json_response_with_status, png_response,
    HttpResponse, ResponseBody,
};
use webview_automation::server::{
    answer_plain, capture_script, execute_command_script, execute_reply, prepare_execute,
    read_failure_response, route, screenshot_reply, screenshot_response, Dispatch, Method, Route,
    PORT,
};

fn json_text(r: &HttpResponse) -> String {
    match &r.body {
        ResponseBody::Json(t) => t.clone(),
        _ => panic!("not a JSON body"),
    }
}

fn header(r: &HttpResponse, name: &str) -> Option<String> {
    r.headers.iter().find(|h| h.0 == name).map(|h| h.1.clone())
}

fn has_cors(r: &HttpResponse) -> bool {
    header(r, "Access-Control-Allow-Origin").as_deref() == Some("*")
        && header(r, "Access-Control-Allow-Methods").as_deref() == Some("GET, POST, OPTIONS")
        && header(r, "Access-Control-Allow-Headers").as_deref() == Some("Content-Type")
}

const PNG_TEXT: &str = "iVBORw0KGgoAAAANSUhEUgAAAAEAAAABCAYAAAAfFcSJAAAADUlEQVR42mNkYPhfDwAChwGA60e6kgAAAABJRU5ErkJggg==";

fn png_bytes() -> Vec<u8> {
    vec![
        137, 80, 78, 71, 13, 10, 26, 10, 0, 0, 0, 13, 73, 72, 68, 82, 0, 0, 0, 1, 0, 0, 0, 1, 8,
        6, 0, 0, 0, 31, 21, 196, 137, 0, 0, 0, 13, 73, 68, 65, 84, 120, 218, 99, 100, 96, 248, 95,
        15, 0, 2, 135, 1, 128, 235, 71, 186, 146, 0, 0, 0, 0, 73, 69, 78, 68, 174, 66, 96, 130,
    ]
}

#[test]
fn routes_by_exact_method_and_path() {
    assert_eq!(route(Method::Get, "/automation/health"), Route::Health);
    assert_eq!(route(Method::Post, "/automation/execute"), Route::Execute);
    assert_eq!(route(Method::Get, "/automation/screenshot"), Route::Screenshot);
    assert_eq!(route(Method::Options, "/anything"), Route::Preflight);
    assert_eq!(route(Method::Get, "/automation/execute"), Route::NotFound);
    assert_eq!(route(Method::Post, "/automation/health"), Route::NotFound);
    assert_eq!(route(Method::Get, "/automation/health/"), Route::NotFound);
    assert_eq!(route(Method::Other, "/automation/health"), Route::NotFound);
}

#[test]
fn health_reports_port_and_version() {
    let r = answer_plain(route(Method::Get, "/automation/health")).unwrap();
    assert_eq!(r.status, 200);
    let v: serde_json::Value = serde_json::from_str(&json_text(&r)).unwrap();
    assert_eq!(v["status"], "ok");
    assert_eq!(v["port"].as_u64(), Some(PORT as u64));
    assert_eq!(v["version"], "1.0.0");
    assert_eq!(header(&r, "Content-Type").as_deref(), Some("application/json"));
    assert!(has_cors(&r));
}

#[test]
fn execute_with_command_and_args() {
    let d = prepare_execute(r##"{"command":"click","args":{"selector":"#go"}}"##).ok().unwrap();
    assert_eq!(d.command, "click");
    assert!(d.script.contains("execute(\"click\", {\"selector\":\"#go\"})"));
    let r = execute_reply(&d.command, Dispatch::Sent);
    assert_eq!(r.status, 200);
    let body = json_text(&r);
    assert!(body.contains("\"command\":\"click\""));
    assert_eq!(body, r#"{"command":"click","message":"Command executed","success":true}"#);
    assert!(has_cors(&r));
}

#[test]
fn execute_without_args_passes_empty_object() {
    let d = prepare_execute(r#"{"command":"reload"}"#).ok().unwrap();
    assert!(d.script.contains("execute(\"reload\", {})"));
}

#[test]
fn execute_missing_command_is_rejected() {
    let r = prepare_execute("{}").err().unwrap();
    assert_eq!(r.status, 400);
    assert!(json_text(&r).contains("command"));
    assert_eq!(json_text(&r), r#"{"error":"Missing 'command' field"}"#);
    let r = prepare_execute(r#"{"command":7}"#).err().unwrap();
    assert_eq!(r.status, 400);
}

#[test]
fn execute_with_malformed_body_is_rejected() {
    let r = prepare_execute("not json").err().unwrap();
    assert_eq!(r.status, 400);
    assert!(json_text(&r).starts_with("{\"error\":\"Invalid JSON: "));
}

#[test]
fn execute_reply_reports_dispatch_failures() {
    let r = execute_reply("click", Dispatch::NoTarget);
    assert_eq!(r.status, 500);
    assert_eq!(json_text(&r), r#"{"error":"Main window not found"}"#);
    let r = execute_reply("click", Dispatch::Failed("gone".to_string()));
    assert_eq!(r.status, 500);
    assert_eq!(json_text(&r), r#"{"error":"Script execution failed: gone"}"#);
}

#[test]
fn body_read_failure_is_a_client_error() {
    let r = read_failure_response("broken pipe");
    assert_eq!(r.status, 400);
    assert_eq!(json_text(&r), r#"{"error":"Failed to read body: broken pipe"}"#);
}

#[test]
fn screenshot_unavailable_when_slot_empty() {
    let r = screenshot_reply(Dispatch::Sent, None);
    assert_eq!(r.status, 500);
    assert!(json_text(&r).contains("unavailable"));
}

#[test]
fn screenshot_serves_decoded_png() {
    let taken = format!("data:image/png;base64,{}", PNG_TEXT);
    let r = screenshot_reply(Dispatch::Sent, Some(taken));
    assert_eq!(r.status, 200);
    assert_eq!(header(&r, "Content-Type").as_deref(), Some("image/png"));
    assert_eq!(header(&r, "Access-Control-Allow-Origin").as_deref(), Some("*"));
    match r.body {
        ResponseBody::Png(b) => assert_eq!(b, png_bytes()),
        _ => panic!("not a PNG body"),
    }
}

#[test]
fn screenshot_with_other_prefix_is_rejected() {
    let r = screenshot_response(Some(format!("data:image/jpeg;base64,{}", PNG_TEXT)));
    assert_eq!(r.status, 500);
    assert!(json_text(&r).contains("Unexpected screenshot format"));
}

#[test]
fn screenshot_with_bad_payload_reports_decode_error() {
    let r = screenshot_response(Some("data:image/png;base64,ab$d".to_string()));
    assert_eq!(r.status, 500);
    assert_eq!(
        json_text(&r),
        r#"{"error":"Base64 decode failed: Invalid base64 character: $"}"#
    );
}

#[test]
fn screenshot_dispatch_failures() {
    let r = screenshot_reply(Dispatch::NoTarget, Some("x".to_string()));
    assert_eq!(r.status, 500);
    assert_eq!(json_text(&r), r#"{"error":"Main window not found"}"#);
    let r = screenshot_reply(Dispatch::Failed("closed".to_string()), None);
    assert_eq!(json_text(&r), r#"{"error":"Screenshot request failed: closed"}"#);
}

#[test]
fn options_preflight_on_any_path() {
    for path in ["/anything", "/automation/health", "/"] {
        let r = answer_plain(route(Method::Options, path)).unwrap();
        assert_eq!(r.status, 204);
        assert!(has_cors(&r));
        assert_eq!(r.headers.len(), 3);
        assert!(matches!(r.body, ResponseBody::Empty));
    }
    assert_eq!(cors_response().status, 204);
}

#[test]
fn unknown_path_is_not_found() {
    let r = answer_plain(route(Method::Get, "/nonexistent")).unwrap();
    assert_eq!(r.status, 404);
    assert_eq!(json_text(&r), r#"{"error":"Not found"}"#);
    assert!(has_cors(&r));
}

#[test]
fn handler_routes_have_no_plain_answer() {
    assert!(answer_plain(Route::Execute).is_none());
    assert!(answer_plain(Route::Screenshot).is_none());
}

#[test]
fn error_messages_are_escaped() {
    let r = error_response("say \"hi\"\n", 400);
    assert_eq!(json_text(&r), "{\"error\":\"say \\\"hi\\\"\\n\"}");
}

#[test]
fn json_and_png_builders() {
    let r = json_response("{}".to_string());
    assert_eq!(r.status, 200);
    assert_eq!(r.headers.len(), 4);
    let r = json_response_with_status("[]".to_string(), 418);
    assert_eq!(r.status, 418);
    let r = png_response(vec![1, 2, 3]);
    assert_eq!(r.headers.len(), 2);
}

#[test]
fn scripts_carry_the_command() {
    let s = execute_command_script("scroll", "{\"y\":3}");
    assert!(s.contains("execute(\"scroll\", {\"y\":3})"));
    assert!(s.contains("JSON.stringify"));
    assert!(capture_script().contains("captureAndSend()"));
}

#[test]
fn command_name_is_quoted_in_the_script() {
    let d = prepare_execute(r#"{"command":"it's \\ \"odd\"\n"}"#).ok().unwrap();
    assert_eq!(d.command, "it's \\ \"odd\"\n");
    assert!(d.script.contains(r#"execute("it's \\ \"odd\"\n", {})"#));
    assert!(!d.script.contains("execute('"));
    let s = execute_command_script("a'b", "{}");
    assert!(s.contains(r#"execute("a'b", {})"#));
}

#[test]
fn empty_command_counts_as_missing() {
    let r = prepare_execute(r#"{"command":""}"#).err().unwrap();
    assert_eq!(r.status, 400);
    assert_eq!(json_text(&r), r#"{"error":"Missing 'command' field"}"#);
}

#[test]
fn control_characters_are_escaped_in_hex() {
    let r = error_response("a\u{1}b\u{8}\u{1f}\u{7f}", 500);
    assert_eq!(json_text(&r), "{\"error\":\"a\\u0001b\\b\\u001f\u{7f}\"}");
    let r = execute_reply("tab\there", Dispatch::Sent);
    assert_eq!(
        json_text(&r),
        r#"{"command":"tab\there","message":"Command executed","success":true}"#
    );
}
