use httpie_lite::body::collect_body;
use httpie_lite::config::{ClientConfig, DEFAULT_TIMEOUT_SECS};
use httpie_lite::highlight::highlight_json;
use httpie_lite::kv::{parse_kv_pair, KvPair};
use httpie_lite::render::{
    body_text, choose_renderer, content_type, header_line, is_content_type_header,
    is_json_content_type, render, render_body, render_head, status_line, BodyRenderer, Header,
    RenderedResponse,
};

fn pairs(ts: &[&str]) -> Vec<KvPair> {
    ts.iter().map(|t| parse_kv_pair(t).unwrap()).collect()
}

fn header(n: &str, v: &str) -> Header {
    Header { name: n.to_string(), value: v.to_string() }
}

fn response(headers: Vec<Header>, body: &str) -> RenderedResponse {
    RenderedResponse {
        version: "HTTP/1.1".to_string(),
        status: 200,
        headers,
        body: body.to_string(),
    }
}

#[test]
fn duplicate_keys_last_wins() {
    let body = collect_body(&pairs(&["a=1", "b=2", "a=3"]));
    assert_eq!(body.len(), 2);
    let mut obj = serde_json::Map::new();
    for p in &body {
        obj.insert(p.k.clone(), serde_json::Value::String(p.v.clone()));
    }
    let text = serde_json::to_string(&serde_json::Value::Object(obj)).unwrap();
    assert_eq!(text, r#"{"a":"3","b":"2"}"#);
}

#[test]
fn collect_body_keeps_distinct_keys() {
    let body = collect_body(&pairs(&["x=1", "y=2"]));
    let got: Vec<(&str, &str)> = body.iter().map(|p| (p.k.as_str(), p.v.as_str())).collect();
    assert_eq!(got, vec![("x", "1"), ("y", "2")]);
    assert!(collect_body(&Vec::new()).is_empty());
}

#[test]
fn json_response_is_highlighted() {
    let resp = response(vec![header("content-type", "application/json")], r#"{"x":1}"#);
    assert_eq!(choose_renderer(&resp), BodyRenderer::HighlightedJson);
    let out = render_body(&resp);
    assert_eq!(out, "{\n  \u{1b}[32m\"x\"\u{1b}[0m: 1\n}");
}

#[test]
fn plain_response_is_verbatim() {
    let resp = response(vec![header("Content-Type", "text/plain")], r#"{"x":1}"#);
    assert_eq!(choose_renderer(&resp), BodyRenderer::PlainText);
    assert_eq!(render_body(&resp), r#"{"x":1}"#);
}

#[test]
fn invalid_json_falls_back_to_raw_body() {
    let resp = response(vec![header("content-type", "application/json")], "{not json");
    assert_eq!(render_body(&resp), "{not json");
}

#[test]
fn missing_content_type_is_plain() {
    let resp = response(vec![header("server", "mock")], "hello");
    assert_eq!(choose_renderer(&resp), BodyRenderer::PlainText);
    assert!(content_type(&resp.headers).is_none());
}

#[test]
fn full_render_lists_status_headers_body() {
    let resp = response(
        vec![header("content-type", "text/plain"), header("content-length", "5")],
        "hello",
    );
    let lines = render(&resp);
    assert_eq!(
        lines,
        vec![
            "HTTP/1.1 200".to_string(),
            "content-type: text/plain".to_string(),
            "content-length: 5".to_string(),
            "hello".to_string(),
        ]
    );
    assert_eq!(render_head(&resp).len(), 3);
}

#[test]
fn status_line_shows_version_and_code() {
    let mut resp = response(vec![], "");
    resp.status = 404;
    assert_eq!(status_line(&resp), "HTTP/1.1 404");
    resp.status = 7;
    resp.version = "HTTP/2.0".to_string();
    assert_eq!(status_line(&resp), "HTTP/2.0 7");
    resp.status = 65535;
    assert_eq!(status_line(&resp), "HTTP/2.0 65535");
}

#[test]
fn header_line_joins_name_and_value() {
    assert_eq!(header_line(&header("x-a", "b c")), "x-a: b c");
}

#[test]
fn content_type_header_name_ignores_case() {
    assert!(is_content_type_header("Content-Type"));
    assert!(is_content_type_header("CONTENT-TYPE"));
    assert!(!is_content_type_header("content-length"));
    let hs = vec![header("Server", "x"), header("Content-TYPE", "a/b"), header("content-type", "c/d")];
    assert_eq!(content_type(&hs).map(|s| s.as_str()), Some("a/b"));
}

#[test]
fn json_media_type_ignores_parameters_and_case() {
    assert!(is_json_content_type("application/json"));
    assert!(is_json_content_type("application/json; charset=utf-8"));
    assert!(is_json_content_type(" Application/JSON ;x=y"));
    assert!(!is_json_content_type("application/jsonx"));
    assert!(!is_json_content_type("application/json x"));
    assert!(!is_json_content_type("text/plain"));
    assert!(!is_json_content_type(""));
}

#[test]
fn highlight_colours_string_literals() {
    assert_eq!(highlight_json("1"), "1");
    assert_eq!(highlight_json(r#""a\"b""#), "\u{1b}[32m\"a\\\"b\"\u{1b}[0m");
    assert_eq!(highlight_json("\"open"), "\u{1b}[32m\"open\u{1b}[0m");
}

#[test]
fn body_text_uses_given_pretty_form() {
    assert_eq!(body_text(BodyRenderer::PlainText, "raw", Some("\"p\"")), "raw");
    assert_eq!(
        body_text(BodyRenderer::HighlightedJson, "raw", Some("\"p\"")),
        "\u{1b}[32m\"p\"\u{1b}[0m"
    );
    assert_eq!(body_text(BodyRenderer::HighlightedJson, "raw", None), "raw");
}

#[test]
fn standard_config_has_defaults() {
    let c = ClientConfig::standard();
    assert_eq!(c.user_agent, "httpie-lite/0.1");
    assert_eq!(c.marker_name, "X-Powered-By");
    assert_eq!(c.marker_value, "Rust");
    assert_eq!(c.timeout_secs, DEFAULT_TIMEOUT_SECS);
    assert_eq!(c.with_timeout(5).timeout_secs, 5);
}
