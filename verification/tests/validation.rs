use website_checker::response::Response;
use website_checker::validation::{
    check_body_text, contains_token, enforce_https_policy, validate_body, validate_headers,
    validate_response, Config, ValidationReport,
};

fn response(status: u16, headers: &[(&str, &str)], body: &str) -> Response {
    Response {
        status,
        headers: headers.iter().map(|(n, v)| (n.to_string(), v.to_string())).collect(),
        body: Ok(body.as_bytes().to_vec()),
    }
}

#[test]
fn https_policy_allows_https_and_blocks_http() {
    let cfg = Config::default();

    let mut rep_https = ValidationReport::default();
    enforce_https_policy("https://example.com", &mut rep_https, &cfg);
    assert!(rep_https.https_policy_ok);
    assert!(rep_https.issues.is_empty());

    let mut rep_http = ValidationReport::default();
    enforce_https_policy("http://example.com", &mut rep_http, &cfg);
    assert!(!rep_http.https_policy_ok);
    assert!(
        rep_http.issues.iter().any(|s| s.contains("HTTPS required")),
        "Expected HTTPS policy issue to be recorded"
    );
}

#[test]
fn body_text_all_and_any_modes() {
    let mut cfg = Config::default();
    cfg.body_contains_all = vec!["Welcome".into(), "Home".into()];
    cfg.body_contains_any = vec!["Login".into(), "Sign".into()];

    let (ok1, issues1) = check_body_text("Welcome to my Home page. Please Login.", &cfg);
    assert!(ok1, "should pass; has both ALL and at least one ANY");
    assert!(issues1.is_empty());

    let (ok2, issues2) = check_body_text("Welcome area only.", &cfg);
    assert!(!ok2, "missing 'Home' and ANY-of (Login/Sign) should fail");
    assert!(issues2.iter().any(|s| s.contains("Body missing required text: 'Home'")));
    assert!(issues2.iter().any(|s| s.contains("Body did not contain ANY of")));

    // Only any-of configured:
    let mut cfg2 = Config::default();
    cfg2.body_contains_any = vec!["one".into(), "two".into()];
    let (ok3, issues3) = check_body_text("zero and two present", &cfg2);
    assert!(ok3);
    assert!(issues3.is_empty());

    let (ok4, issues4) = check_body_text("none present", &cfg2);
    assert!(!ok4, "token match should not treat 'one' inside 'none' as a hit");
    assert!(issues4.iter().any(|s| s.contains("ANY of")));
}

#[test]
fn default_report_is_blank() {
    let report = ValidationReport::default();
    assert!(!report.header_ok);
    assert!(!report.body_ok);
    assert!(!report.https_policy_ok);
    assert!(report.issues.is_empty());
    assert!(!report.overall_ok());
}

#[test]
fn overall_ok_needs_all_three_verdicts() {
    for bits in 0..8u8 {
        let report = ValidationReport {
            header_ok: bits & 1 != 0,
            body_ok: bits & 2 != 0,
            https_policy_ok: bits & 4 != 0,
            issues: Vec::new(),
        };
        assert_eq!(report.overall_ok(), bits == 7);
    }
}

#[test]
fn default_config_values() {
    let cfg = Config::default();
    assert!(cfg.https_required);
    assert_eq!(cfg.required_headers, vec!["Content-Type"]);
    assert_eq!(cfg.content_type_allow, vec!["text/html", "application/json"]);
    assert!(cfg.header_equals.is_empty());
    assert!(cfg.header_contains.is_empty());
    assert_eq!(cfg.max_body_bytes, 64 * 1024);
    assert!(cfg.body_contains_all.is_empty());
    assert!(cfg.body_contains_any.is_empty());
    assert!(!cfg.needs_body());
}

#[test]
fn https_policy_exact_issue_and_other_fields_kept() {
    let cfg = Config::default();
    let mut report = ValidationReport {
        header_ok: true,
        body_ok: true,
        https_policy_ok: true,
        issues: vec!["earlier".to_string()],
    };
    enforce_https_policy("http://example.com", &mut report, &cfg);
    assert!(!report.https_policy_ok);
    assert!(report.header_ok);
    assert!(report.body_ok);
    assert_eq!(
        report.issues,
        vec![
            "earlier".to_string(),
            "HTTPS required by policy, but URL is not https".to_string()
        ]
    );
}

#[test]
fn https_policy_off_accepts_any_scheme() {
    let mut cfg = Config::default();
    cfg.https_required = false;
    let mut report = ValidationReport::default();
    enforce_https_policy("http://example.com", &mut report, &cfg);
    assert!(report.https_policy_ok);
    assert!(report.issues.is_empty());
    let mut report = ValidationReport::default();
    enforce_https_policy("ftp://example.com", &mut report, &cfg);
    assert!(report.https_policy_ok);
}

#[test]
fn https_policy_scheme_is_case_sensitive_prefix() {
    let cfg = Config::default();
    for url in ["HTTPS://example.com", "https:/example.com", "https:/", "", " https://a", "xhttps://a"] {
        let mut report = ValidationReport::default();
        enforce_https_policy(url, &mut report, &cfg);
        assert!(!report.https_policy_ok, "{:?}", url);
        assert_eq!(report.issues.len(), 1);
    }
    for url in ["https://", "https://a", "https://\u{e9}.example"] {
        let mut report = ValidationReport::default();
        enforce_https_policy(url, &mut report, &cfg);
        assert!(report.https_policy_ok, "{:?}", url);
        assert!(report.issues.is_empty());
    }
}

#[test]
fn token_match_examples() {
    assert!(!contains_token("none present", "one"));
    assert!(contains_token("zero and two present", "two"));
    assert!(contains_token("Cache-Control: max-age=3600", "max-age="));
    assert!(contains_token("xmax-age=3600", "max-age="));
}

#[test]
fn token_match_boundaries() {
    assert!(contains_token("one", "one"));
    assert!(contains_token("one two", "one"));
    assert!(contains_token("two one", "one"));
    assert!(contains_token("(one)", "one"));
    assert!(contains_token("a-one-b", "one"));
    assert!(!contains_token("ones", "one"));
    assert!(!contains_token("bone", "one"));
    assert!(!contains_token("one1", "one"));
    assert!(!contains_token("1one", "one"));
    assert!(!contains_token("Zone", "one"));
    assert!(!contains_token("", "one"));
    assert!(!contains_token("on", "one"));
    // A later occurrence may stand alone where an earlier one does not.
    assert!(contains_token("none one", "one"));
    assert!(contains_token("oneone one", "one"));
    assert!(contains_token("aaa aa", "aa"));
    assert!(!contains_token("aaa", "aa"));
}

#[test]
fn token_match_empty_needle_always_matches() {
    assert!(contains_token("", ""));
    assert!(contains_token("abc", ""));
    let mut cfg = Config::default();
    cfg.body_contains_all = vec!["".into()];
    let (ok, issues) = check_body_text("abc", &cfg);
    assert!(ok);
    assert!(issues.is_empty());
}

#[test]
fn token_match_is_case_sensitive() {
    assert!(!contains_token("Welcome home", "Home"));
    assert!(contains_token("Welcome Home", "Home"));
}

#[test]
fn token_match_non_ascii() {
    // Only ASCII letters and digits bind a word: a non-ASCII letter next to the
    // needle does not.
    assert!(contains_token("\u{e9}one", "one"));
    assert!(contains_token("one\u{e9}", "one"));
    // A needle of non-ASCII letters is a word too.
    assert!(contains_token("un caf\u{e9} noir", "caf\u{e9}"));
    assert!(!contains_token("un caf\u{e9}s noir", "caf\u{e9}"));
    assert!(contains_token("a\u{e9}b", "\u{e9}") == false);
    assert!(contains_token("a \u{e9} b", "\u{e9}"));
    // With punctuation in the needle the search is plain.
    assert!(contains_token("xcaf\u{e9}!y", "caf\u{e9}!"));
}

#[test]
fn body_issue_texts_are_exact() {
    let mut cfg = Config::default();
    cfg.body_contains_all = vec!["Welcome".into(), "Home".into(), "Page".into()];
    cfg.body_contains_any = vec!["Login".into(), "Sign \"in\"".into()];
    let (ok, issues) = check_body_text("Welcome area only.", &cfg);
    assert!(!ok);
    assert_eq!(
        issues,
        vec![
            "Body missing required text: 'Home'".to_string(),
            "Body missing required text: 'Page'".to_string(),
            "Body did not contain ANY of: [\"Login\", \"Sign \\\"in\\\"\"]".to_string(),
        ]
    );
}

#[test]
fn body_all_only_and_empty_rules() {
    let cfg = Config::default();
    let (ok, issues) = check_body_text("anything", &cfg);
    assert!(ok);
    assert!(issues.is_empty());

    let mut cfg = Config::default();
    cfg.body_contains_all = vec!["world".into()];
    let (ok, issues) = check_body_text("hello world", &cfg);
    assert!(ok);
    assert!(issues.is_empty());
    let (ok, issues) = check_body_text("hello worlds", &cfg);
    assert!(!ok);
    assert_eq!(issues, vec!["Body missing required text: 'world'".to_string()]);
}

#[test]
fn headers_all_rules_pass() {
    let mut cfg = Config::default();
    cfg.header_equals = vec![("X-Frame-Options", "DENY".to_string())];
    cfg.header_contains = vec![("Cache-Control", "max-age=".to_string())];
    let resp = response(
        200,
        &[
            ("content-type", "Text/HTML; charset=utf-8"),
            ("x-frame-options", "DENY"),
            ("Cache-Control", "public, max-age=3600"),
        ],
        "",
    );
    let mut report = ValidationReport::default();
    validate_headers(&resp, &cfg, &mut report);
    assert!(report.header_ok);
    assert!(report.issues.is_empty());
    assert!(!report.body_ok);
    assert!(!report.https_policy_ok);
}

#[test]
fn headers_every_breach_is_recorded_in_order() {
    let mut cfg = Config::default();
    cfg.required_headers = vec!["Content-Type", "Server", "Date"];
    cfg.content_type_allow = vec!["text/html", "application/json"];
    cfg.header_equals = vec![
        ("X-Frame-Options", "DENY".to_string()),
        ("X-Missing", "1".to_string()),
    ];
    cfg.header_contains = vec![
        ("Cache-Control", "max-age=".to_string()),
        ("X-Also-Missing", "a".to_string()),
    ];
    let resp = response(
        200,
        &[
            ("Content-Type", "image/png"),
            ("Date", "today"),
            ("X-Frame-Options", "SAMEORIGIN"),
            ("Cache-Control", "no-store"),
        ],
        "",
    );
    let mut report = ValidationReport::default();
    report.issues.push("earlier".to_string());
    report.https_policy_ok = true;
    validate_headers(&resp, &cfg, &mut report);
    assert!(!report.header_ok);
    assert!(report.https_policy_ok);
    assert_eq!(
        report.issues,
        vec![
            "earlier".to_string(),
            "Missing header: Server".to_string(),
            "Content-Type not allowed: image/png".to_string(),
            "Header X-Frame-Options mismatch: got 'SAMEORIGIN', expected 'DENY'".to_string(),
            "Missing header: X-Missing".to_string(),
            "Header Cache-Control does not contain 'max-age=': got 'no-store'".to_string(),
            "Missing header: X-Also-Missing".to_string(),
        ]
    );
}

#[test]
fn headers_missing_content_type_is_reported_by_both_rules() {
    let cfg = Config::default();
    let resp = response(200, &[("Server", "x")], "");
    let mut report = ValidationReport::default();
    validate_headers(&resp, &cfg, &mut report);
    assert!(!report.header_ok);
    assert_eq!(
        report.issues,
        vec![
            "Missing header: Content-Type".to_string(),
            "Missing header: Content-Type".to_string(),
        ]
    );
}

#[test]
fn headers_empty_allowlist_skips_content_type_rule() {
    let mut cfg = Config::default();
    cfg.required_headers = vec![];
    cfg.content_type_allow = vec![];
    let resp = response(200, &[], "");
    let mut report = ValidationReport::default();
    validate_headers(&resp, &cfg, &mut report);
    assert!(report.header_ok);
    assert!(report.issues.is_empty());
}

#[test]
fn headers_content_type_prefix_ignores_case_only() {
    let mut cfg = Config::default();
    cfg.content_type_allow = vec!["Application/JSON"];
    for (value, ok) in [
        ("application/json", true),
        ("APPLICATION/JSON; charset=utf-8", true),
        ("application/jso", false),
        (" application/json", false),
        ("text/html", false),
        ("", false),
    ] {
        let resp = response(200, &[("Content-Type", value)], "");
        let mut report = ValidationReport::default();
        validate_headers(&resp, &cfg, &mut report);
        assert_eq!(report.header_ok, ok, "{:?}", value);
    }
}

#[test]
fn headers_first_of_two_equal_names_counts() {
    let mut cfg = Config::default();
    cfg.required_headers = vec![];
    cfg.content_type_allow = vec![];
    cfg.header_equals = vec![("X-Mode", "a".to_string())];
    let resp = response(200, &[("x-mode", "a"), ("X-Mode", "b")], "");
    let mut report = ValidationReport::default();
    validate_headers(&resp, &cfg, &mut report);
    assert!(report.header_ok);
    assert_eq!(resp.header("X-MODE"), Some("a"));
    assert_eq!(resp.header("X-Other"), None);

    let resp = response(200, &[("x-mode", "b"), ("X-Mode", "a")], "");
    let mut report = ValidationReport::default();
    validate_headers(&resp, &cfg, &mut report);
    assert!(!report.header_ok);
    assert_eq!(
        report.issues,
        vec!["Header X-Mode mismatch: got 'b', expected 'a'".to_string()]
    );
}

#[test]
fn header_equals_is_exact_and_contains_is_plain() {
    let mut cfg = Config::default();
    cfg.required_headers = vec![];
    cfg.content_type_allow = vec![];
    cfg.header_equals = vec![("A", "Deny".to_string())];
    cfg.header_contains = vec![("B", "one".to_string()), ("C", "".to_string())];
    let resp = response(200, &[("A", "DENY"), ("B", "none"), ("C", "")], "");
    let mut report = ValidationReport::default();
    validate_headers(&resp, &cfg, &mut report);
    assert!(!report.header_ok);
    assert_eq!(
        report.issues,
        vec!["Header A mismatch: got 'DENY', expected 'Deny'".to_string()]
    );
}

#[test]
fn body_is_cut_to_the_limit_without_complaint() {
    let mut cfg = Config::default();
    cfg.max_body_bytes = 11;
    cfg.body_contains_all = vec!["world".into()];
    let mut report = ValidationReport::default();
    validate_body(&Ok(b"hello world and more".to_vec()), &cfg, &mut report);
    assert!(report.body_ok);
    assert!(report.issues.is_empty());

    cfg.max_body_bytes = 10;
    let mut report = ValidationReport::default();
    validate_body(&Ok(b"hello world and more".to_vec()), &cfg, &mut report);
    assert!(!report.body_ok);
    assert_eq!(
        report.issues,
        vec!["Body missing required text: 'world'".to_string()]
    );

    cfg.max_body_bytes = 0;
    cfg.body_contains_all = vec!["".into()];
    let mut report = ValidationReport::default();
    validate_body(&Ok(b"hello".to_vec()), &cfg, &mut report);
    assert!(report.body_ok);
}

#[test]
fn body_with_invalid_bytes_is_decoded_not_refused() {
    let mut cfg = Config::default();
    cfg.body_contains_all = vec!["world".into()];
    let mut report = ValidationReport::default();
    validate_body(&Ok(vec![0xff, b'w', b'o', b'r', b'l', b'd', 0xfe]), &cfg, &mut report);
    assert!(report.body_ok);
    assert!(report.issues.is_empty());

    // The replacement character is what the text holds in place of a bad byte.
    let mut cfg = Config::default();
    cfg.body_contains_all = vec!["\u{fffd}!".into()];
    let mut report = ValidationReport::default();
    validate_body(&Ok(vec![b'a', 0xff, b'!']), &cfg, &mut report);
    assert!(report.body_ok);
    // Had the bytes come back unchanged, a cut inside a character would show:
    let mut cfg = Config::default();
    cfg.max_body_bytes = 4;
    cfg.body_contains_any = vec!["caf\u{e9}".into()];
    let mut report = ValidationReport::default();
    validate_body(&Ok("caf\u{e9}".as_bytes().to_vec()), &cfg, &mut report);
    assert!(!report.body_ok);
    assert_eq!(
        report.issues,
        vec!["Body did not contain ANY of: [\"caf\u{e9}\"]".to_string()]
    );
}

#[test]
fn body_read_failure_is_an_issue() {
    let mut cfg = Config::default();
    cfg.body_contains_all = vec!["world".into()];
    let mut report = ValidationReport::default();
    report.header_ok = true;
    validate_body(&Err("connection reset".to_string()), &cfg, &mut report);
    assert!(!report.body_ok);
    assert!(report.header_ok);
    assert_eq!(
        report.issues,
        vec!["Failed to read response body: connection reset".to_string()]
    );
}

#[test]
fn response_without_body_rules_never_looks_at_the_body() {
    let cfg = Config::default();
    let resp = Response {
        status: 200,
        headers: vec![("Content-Type".to_string(), "text/html".to_string())],
        body: Err("never read".to_string()),
    };
    let mut report = ValidationReport::default();
    validate_response(resp, &cfg, &mut report);
    assert!(report.header_ok);
    assert!(report.body_ok);
    assert!(report.issues.is_empty());
}

#[test]
fn response_header_and_body_issues_in_order() {
    let mut cfg = Config::default();
    cfg.body_contains_all = vec!["Welcome".into()];
    let resp = response(500, &[("Content-Type", "text/plain")], "Goodbye");
    let mut report = ValidationReport::default();
    validate_response(resp, &cfg, &mut report);
    assert!(!report.header_ok);
    assert!(!report.body_ok);
    assert_eq!(
        report.issues,
        vec![
            "Content-Type not allowed: text/plain".to_string(),
            "Body missing required text: 'Welcome'".to_string(),
        ]
    );
}
