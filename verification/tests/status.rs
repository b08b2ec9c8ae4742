use website_checker::response::{Fetched, Response};
use website_checker::status::{CheckStatus, WebsiteStatus};
use website_checker::time_utils::{batch_timestamp, fetch_network_time_utc, TimeReply};
use website_checker::validation::Config;

fn reply(status: u16, headers: &[(&str, &str)], body: &str) -> Fetched {
    Fetched::Response(Response {
        status,
        headers: headers.iter().map(|(n, v)| (n.to_string(), v.to_string())).collect(),
        body: Ok(body.as_bytes().to_vec()),
    })
}

fn ok_response_html() -> Fetched {
    reply(
        200,
        &[
            ("Content-Type", "text/html; charset=utf-8"),
            ("Content-Length", "11"),
            ("X-Frame-Options", "DENY"),
        ],
        "hello world",
    )
}

fn not_found_response() -> Fetched {
    reply(404, &[("Content-Type", "text/html"), ("Content-Length", "9")], "Not Found")
}

fn no_reply(reason: &str) -> Fetched {
    Fetched::Failed(reason.to_string())
}

fn pinned_clock() -> Result<String, String> {
    fetch_network_time_utc(TimeReply::Pinned)
}

fn cfg_no_https() -> Config {
    let mut cfg = Config::default();
    cfg.https_required = false;
    cfg
}

#[test]
fn google_returns_success() {
    let ws = WebsiteStatus::request("https://www.google.com", ok_response_html(), 120, pinned_clock());
    match ws.status {
        CheckStatus::Success(code) => assert!((200..=299).contains(&code)),
        other => panic!("expected success 2xx, got {:?}", other),
    }
    assert!(ws.response_time_ms <= 5_000);
    assert!(!ws.timestamp_utc.is_empty() && ws.timestamp_utc != "unknown");
}

#[test]
fn invalid_domain_is_transport_error() {
    let ws = WebsiteStatus::request(
        "https://definitely-not-a-real-host.invalid",
        no_reply("Dns Failed: failed to lookup address information"),
        3,
        pinned_clock(),
    );
    match ws.status {
        CheckStatus::Transport(_) => {}
        other => panic!("expected transport error, got {:?}", other),
    }
    assert!(!ws.validation.header_ok);
    assert!(!ws.validation.body_ok);
}

#[test]
fn http_url_violates_https_policy() {
    let ws = WebsiteStatus::request("http://example.com", ok_response_html(), 50, pinned_clock());
    assert!(!ws.validation.https_policy_ok);
    assert!(ws.validation.issues.iter().any(|s| s.contains("HTTPS required")));
}

#[test]
fn mock_200_ok_and_body_validation() {
    // Require body to contain the token "world" and allow text/html
    let mut cfg = cfg_no_https();
    cfg.body_contains_all = vec!["world".into()];
    cfg.content_type_allow = vec!["text/html"];

    let ws = WebsiteStatus::request_with(
        "http://127.0.0.1:54321",
        &cfg,
        ok_response_html(),
        5,
        pinned_clock(),
    );

    match ws.status {
        CheckStatus::Success(code) => assert_eq!(code, 200),
        other => panic!("expected success 200, got {:?}", other),
    }

    assert!(ws.validation.https_policy_ok, "HTTPS policy disabled for test");
    assert!(ws.validation.header_ok, "headers should pass");
    assert!(ws.validation.body_ok, "body should contain required token");
}

#[test]
fn mock_404_maps_to_http_error() {
    let ws = WebsiteStatus::request_with(
        "http://127.0.0.1:54321",
        &cfg_no_https(),
        not_found_response(),
        5,
        pinned_clock(),
    );

    match ws.status {
        CheckStatus::HttpError(code) => assert_eq!(code, 404),
        other => panic!("expected HttpError(404), got {:?}", other),
    }
    assert!(ws.validation.header_ok, "headers parse fine even on 404");
    assert!(ws.validation.body_ok, "no body rules means OK");
}

#[test]
fn not_found_overall_verdict_follows_https_policy_alone() {
    let cfg = Config::default();
    let ws = WebsiteStatus::request_with(
        "https://example.com/missing",
        &cfg,
        not_found_response(),
        5,
        pinned_clock(),
    );
    assert!(matches!(ws.status, CheckStatus::HttpError(404)));
    assert!(ws.validation.header_ok);
    assert!(ws.validation.body_ok);
    assert!(ws.validation.https_policy_ok);
    assert!(ws.validation.overall_ok());
    assert!(ws.validation.issues.is_empty());

    let ws = WebsiteStatus::request_with(
        "http://example.com/missing",
        &cfg,
        not_found_response(),
        5,
        pinned_clock(),
    );
    assert!(matches!(ws.status, CheckStatus::HttpError(404)));
    assert!(ws.validation.header_ok);
    assert!(ws.validation.body_ok);
    assert!(!ws.validation.https_policy_ok);
    assert!(!ws.validation.overall_ok());
}

#[test]
fn status_is_classified_by_code() {
    for (code, success) in [
        (100u16, false),
        (199, false),
        (200, true),
        (204, true),
        (299, true),
        (300, false),
        (304, false),
        (404, false),
        (500, false),
        (0, false),
        (u16::MAX, false),
    ] {
        let ws = WebsiteStatus::request_with_timestamp(
            "https://example.com",
            &Config::default(),
            "ts",
            reply(code, &[("Content-Type", "text/html")], ""),
            1,
        );
        match ws.status {
            CheckStatus::Success(c) => assert!(success && c == code),
            CheckStatus::HttpError(c) => assert!(!success && c == code),
            CheckStatus::Transport(_) => panic!("a response is no transport error"),
        }
    }
}

#[test]
fn transport_error_fails_headers_and_body_and_adds_issue() {
    let ws = WebsiteStatus::request_with_timestamp(
        "http://example.com",
        &Config::default(),
        "2024-05-06T07:08:09Z",
        no_reply("timed out reading response"),
        5_000,
    );
    match &ws.status {
        CheckStatus::Transport(reason) => assert_eq!(reason, "timed out reading response"),
        other => panic!("expected transport error, got {:?}", other),
    }
    assert!(ws.status.is_transport());
    assert_eq!(ws.url, "http://example.com");
    assert_eq!(ws.response_time_ms, 5_000);
    assert_eq!(ws.timestamp_utc, "2024-05-06T07:08:09Z");
    assert!(!ws.validation.header_ok);
    assert!(!ws.validation.body_ok);
    assert!(!ws.validation.https_policy_ok);
    assert_eq!(
        ws.validation.issues,
        vec![
            "HTTPS required by policy, but URL is not https".to_string(),
            "Transport error: timed out reading response".to_string(),
        ]
    );
}

#[test]
fn timestamp_is_attached_verbatim() {
    for ts in ["", "unknown", "2020-01-01T00:00:00Z", " spaced "] {
        let ws = WebsiteStatus::request_with_timestamp(
            "https://example.com",
            &Config::default(),
            ts,
            ok_response_html(),
            7,
        );
        assert_eq!(ws.timestamp_utc, ts);
        assert_eq!(ws.response_time_ms, 7);
        assert_eq!(ws.url, "https://example.com");
        assert!(ws.validation.overall_ok());
        assert!(!ws.status.is_transport());
    }
}

#[test]
fn failed_clock_gives_unknown_and_last_issue() {
    let ws = WebsiteStatus::request_with(
        "http://example.com",
        &Config::default(),
        ok_response_html(),
        9,
        Err("Time request failed: offline".to_string()),
    );
    assert_eq!(ws.timestamp_utc, "unknown");
    assert!(matches!(ws.status, CheckStatus::Success(200)));
    assert!(ws.validation.header_ok);
    assert!(ws.validation.body_ok);
    assert_eq!(
        ws.validation.issues,
        vec![
            "HTTPS required by policy, but URL is not https".to_string(),
            "Timestamp fetch failed: Time request failed: offline".to_string(),
        ]
    );
}

#[test]
fn request_uses_default_rules() {
    let ws = WebsiteStatus::request(
        "https://example.com",
        reply(200, &[("Content-Type", "image/png")], "x"),
        1,
        Ok("now".to_string()),
    );
    assert!(!ws.validation.header_ok);
    assert!(ws.validation.body_ok);
    assert_eq!(
        ws.validation.issues,
        vec!["Content-Type not allowed: image/png".to_string()]
    );
    assert_eq!(ws.timestamp_utc, "now");
}

#[test]
fn time_replies() {
    assert_eq!(
        fetch_network_time_utc(TimeReply::Pinned),
        Ok("2020-01-01T00:00:00Z".to_string())
    );
    assert_eq!(
        fetch_network_time_utc(TimeReply::DateTime("2024-02-03T04:05:06".to_string())),
        Ok("2024-02-03T04:05:06".to_string())
    );
    assert_eq!(
        fetch_network_time_utc(TimeReply::Unreadable("missing field `dateTime`".to_string())),
        Err("Failed to parse time JSON: missing field `dateTime`".to_string())
    );
    assert_eq!(
        fetch_network_time_utc(TimeReply::Failed("Dns Failed".to_string())),
        Err("Time request failed: Dns Failed".to_string())
    );
}

#[test]
fn batch_timestamp_falls_back_to_unknown() {
    assert_eq!(batch_timestamp(Ok("2020-01-01T00:00:00Z".to_string())), "2020-01-01T00:00:00Z");
    assert_eq!(batch_timestamp(Err("offline".to_string())), "unknown");
    assert_eq!(batch_timestamp(Ok(String::new())), "");
}

#[test]
fn record_as_text() {
    let ws = WebsiteStatus::request_with_timestamp(
        "https://example.com",
        &Config::default(),
        "2020-01-01T00:00:00Z",
        ok_response_html(),
        1234,
    );
    assert_eq!(
        ws.to_text(),
        "URL: https://example.com\n\
         Status: 200 (success)\n\
         Response time (ms): 1234\n\
         Timestamp (UTC): 2020-01-01T00:00:00Z\n\
         Validation overall ok? true\n \
         - Header ok: true\n \
         - Body ok: true\n \
         - HTTPS policy ok: true\n"
    );

    let ws = WebsiteStatus::request_with_timestamp(
        "http://example.com",
        &Config::default(),
        "unknown",
        reply(404, &[], "Not Found"),
        0,
    );
    assert_eq!(
        ws.to_text(),
        "URL: http://example.com\n\
         Status: 404 (http error)\n\
         Response time (ms): 0\n\
         Timestamp (UTC): unknown\n\
         Validation overall ok? false\n \
         - Header ok: false\n \
         - Body ok: true\n \
         - HTTPS policy ok: false\n\
         Issues:\n \
         * HTTPS required by policy, but URL is not https\n \
         * Missing header: Content-Type\n \
         * Missing header: Content-Type\n"
    );

    let ws = WebsiteStatus::request_with_timestamp(
        "https://down.invalid",
        &Config::default(),
        "ts",
        no_reply("Dns Failed"),
        u64::MAX,
    );
    assert_eq!(
        ws.to_text(),
        "URL: https://down.invalid\n\
         Transport error: Dns Failed\n\
         Response time (ms): 18446744073709551615\n\
         Timestamp (UTC): ts\n\
         Validation overall ok? false\n \
         - Header ok: false\n \
         - Body ok: false\n \
         - HTTPS policy ok: true\n\
         Issues:\n \
         * Transport error: Dns Failed\n"
    );
}
