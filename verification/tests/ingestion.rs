use rust_ai_agent::ingestion::{
    content_type_is_sliceable, content_type_is_sliceable_lowered, event_from_captures,
    extract_content_type, extract_content_type_lowered, is_static_ok, is_static_ok_lowered,
    is_suspicious, is_suspicious_lowered, parse_log_line, screen_log_line, truncate_ua, LineError,
    LogEvent,
};

fn event(path: &str, status: u16, user_agent: &str) -> LogEvent {
    LogEvent {
        raw_line: String::new(),
        ip: "203.0.113.5".to_owned(),
        method: "GET".to_owned(),
        path: path.to_owned(),
        status,
        user_agent: user_agent.to_owned(),
        referer: "-".to_owned(),
        headers: String::new(),
        content_type: String::new(),
    }
}

#[test]
fn parse_log_line_dash_referer_and_dash_user_agent() {
    let line = r#"203.0.113.7 - - [21/Mar/2025:12:00:00 +0000] "GET /p?q=union+select HTTP/1.1" 403 512 "-" "-""#;
    let ev = parse_log_line(line).expect("combined with - / -");
    assert_eq!(ev.ip, "203.0.113.7");
    assert_eq!(ev.method, "GET");
    assert_eq!(ev.path, "/p?q=union+select");
    assert_eq!(ev.status, 403);
    assert_eq!(ev.referer, "-");
    assert_eq!(ev.user_agent, "-");
}

#[test]
fn parse_log_line_empty_quoted_referer_and_user_agent() {
    let line = "198.51.100.2 - - [21/Mar/2025:12:01:00 +0000] \"GET /admin HTTP/1.1\" 401 0 \"\" \"\"";
    let ev = parse_log_line(line).expect("combined with empty quotes");
    assert_eq!(ev.method, "GET");
    assert_eq!(ev.referer, "");
    assert_eq!(ev.user_agent, "");
}

#[test]
fn compact_summary_without_referer_when_dash_or_empty() {
    let line_dash = r#"203.0.113.1 - - [21/Mar/2025:12:00:00 +0000] "GET /x HTTP/1.1" 404 100 "-" "-""#;
    let ev_dash = parse_log_line(line_dash).unwrap();
    let s = ev_dash.compact_summary();
    assert!(s.starts_with("GET /x 404 | UA:"), "{s}");
    assert!(!s.contains("Ref:"), "unexpected Ref in summary: {s}");

    let line_empty = r#"203.0.113.2 - - [21/Mar/2025:12:00:00 +0000] "GET /y HTTP/1.1" 404 100 "" """#;
    let ev_empty = parse_log_line(line_empty).unwrap();
    let s2 = ev_empty.compact_summary();
    assert!(s2.starts_with("GET /y 404 | UA:"), "{s2}");
    assert!(!s2.contains("Ref:"), "unexpected Ref in summary: {s2}");
}

#[test]
fn parse_post_method_in_compact_summary() {
    let line = r#"198.51.100.3 - - [21/Mar/2025:12:02:00 +0000] "POST /login HTTP/1.1" 401 0 "-" "curl/8""#;
    let ev = parse_log_line(line).unwrap();
    assert_eq!(ev.method, "POST");
    assert_eq!(ev.headers, "");
    assert_eq!(ev.compact_summary(), "POST /login 401 | UA: curl/8");
}

#[test]
fn parse_optional_headers_quoted_field() {
    let line = r#"198.51.100.4 - - [21/Mar/2025:12:03:00 +0000] "GET /api/health HTTP/1.1" 200 42 "-" "curl/8" "Accept: */*; Content-Type: application/json""#;
    let ev = parse_log_line(line).unwrap();
    assert_eq!(ev.headers, "Accept: */*; Content-Type: application/json");
    let s = ev.compact_summary();
    assert!(s.contains(" | H: Accept: */*; Content-Type: application/json"), "{s}");
}

#[test]
fn compact_summary_includes_referer_when_present() {
    let line = r#"203.0.113.3 - - [21/Mar/2025:12:00:00 +0000] "GET /z HTTP/1.1" 404 100 "https://example.com/prev" "curl/8""#;
    let ev = parse_log_line(line).unwrap();
    let s = ev.compact_summary();
    assert!(s.starts_with("GET /z 404 | UA:"), "{s}");
    assert!(s.contains("Ref: https://example.com/prev"), "{s}");
    assert!(!s.contains(" | H:"), "{s}");
}

#[test]
fn compact_summary_order_ua_ref_headers() {
    let line = r#"203.0.113.9 - - [21/Mar/2025:12:00:00 +0000] "GET /z HTTP/1.1" 404 100 "https://a.com" "Mozilla/5.0" "Accept: text/html""#;
    let ev = parse_log_line(line).unwrap();
    let s = ev.compact_summary();
    let ua = s.find(" | UA:").unwrap();
    let rf = s.find(" | Ref:").unwrap();
    let h = s.find(" | H:").unwrap();
    assert!(ua < rf && rf < h, "{s}");
}

#[test]
fn parse_log_line_rejects_other_formats() {
    assert!(parse_log_line("not a log line").is_none());
    let unknown_method = r#"1.2.3.4 - - [21/Mar/2025:12:00:00 +0000] "BREW /pot HTTP/1.1" 418 0 "-" "-""#;
    assert!(parse_log_line(unknown_method).is_none());
}

#[test]
fn parse_log_line_reads_content_type_from_headers() {
    let line = r#"198.51.100.4 - - [21/Mar/2025:12:03:00 +0000] "POST /api HTTP/1.1" 200 42 "-" "curl/8" "Accept: */*; CONTENT-TYPE:  text/plain ; x""#;
    let ev = parse_log_line(line).unwrap();
    assert_eq!(ev.content_type, "text/plain ; x");
    assert_eq!(ev.raw_line, line);
}

#[test]
fn extract_content_type_stops_at_quote_or_semicolon() {
    assert_eq!(extract_content_type(r#"x "Content-Type: application/json" y"#), "application/json");
    assert_eq!(extract_content_type("content-type: a/b; charset=utf-8"), "a/b");
    assert_eq!(extract_content_type("content-type:  a/b  "), "a/b");
    assert_eq!(extract_content_type("no header here"), "");
}

#[test]
fn summary_renders_status_in_decimal_and_cuts_long_fields() {
    let mut ev = event("/a", 500, &"u".repeat(100));
    ev.referer = "r".repeat(70);
    ev.headers = "-".to_owned();
    let s = ev.compact_summary();
    assert_eq!(s, format!("GET /a 500 | UA: {} | Ref: {}", "u".repeat(80), "r".repeat(60)));
    let ev0 = event("/b", 7, "ua");
    assert_eq!(ev0.compact_summary(), "GET /b 7 | UA: ua");
}

#[test]
fn truncate_ua_keeps_char_boundaries() {
    assert_eq!(truncate_ua("abcdef", 4), "abcd");
    assert_eq!(truncate_ua("abc", 10), "abc");
    // "é" takes two bytes: a cut at byte 3 falls inside the second one.
    assert_eq!(truncate_ua("éé", 3), "é");
    assert_eq!(truncate_ua("éé", 4), "éé");
    assert_eq!(truncate_ua("x", 0), "");
}

#[test]
fn suspicious_markers_are_matched_case_insensitively() {
    assert!(is_suspicious(&event("/p?q=UNION+SELECT", 200, "Mozilla/5.0")));
    assert!(is_suspicious(&event("/index", 200, "SQLMap/1.8")));
    assert!(is_suspicious(&event("/../../etc/passwd", 200, "Mozilla/5.0")));
    assert!(is_suspicious(&event("/?x=<SCRIPT>", 200, "Mozilla/5.0")));
    assert!(!is_suspicious(&event("/index.html", 200, "Mozilla/5.0")));
}

#[test]
fn bad_statuses_are_suspicious() {
    for status in [400u16, 401, 403, 404, 500] {
        assert!(is_suspicious(&event("/home", status, "Mozilla/5.0")), "{status}");
    }
    assert!(!is_suspicious(&event("/home", 302, "Mozilla/5.0")));
}

#[test]
fn static_assets_are_not_suspicious_unless_they_carry_a_payload() {
    assert!(is_static_ok(&event("/APP.JS", 200, "nikto")));
    assert!(!is_suspicious(&event("/APP.JS", 200, "nikto")));
    assert!(!is_static_ok(&event("/app.js?q=union", 200, "-")));
    assert!(is_suspicious(&event("/app.js?q=union", 200, "-")));
    assert!(!is_static_ok(&event("/app.js", 404, "-")));
    assert!(is_suspicious(&event("/app.js", 404, "-")));
}

#[test]
fn screen_log_line_forwards_only_suspicious_events() {
    let attack = "  203.0.113.7 - - [21/Mar/2025:12:00:00 +0000] \"GET /p?q=union+select HTTP/1.1\" 200 512 \"-\" \"-\"\n";
    let ev = screen_log_line(attack).unwrap().expect("suspicious");
    assert_eq!(ev.path, "/p?q=union+select");
    let benign = r#"203.0.113.7 - - [21/Mar/2025:12:00:00 +0000] "GET /home HTTP/1.1" 200 512 "-" "Mozilla/5.0""#;
    assert!(screen_log_line(benign).unwrap().is_none());
    assert!(screen_log_line("   \n").unwrap().is_none());
    assert!(screen_log_line("garbage").unwrap().is_none());
}

#[test]
fn screen_log_line_reports_a_content_type_offset_inside_a_char() {
    // "Ⱥ" lowercases to a longer encoding, so the offset found in the
    // lowercase line falls inside the "é" of the line itself.
    let line = r#"1.2.3.4 - - [21/Mar/2025:12:00:00 +0000] "GET / HTTP/1.1" 404 1 "-" "Ⱥ" "Content-Type:é""#;
    assert_eq!(screen_log_line(line).err(), Some(LineError::ContentTypeOffset));
}

fn groups(items: &[Option<&str>]) -> Vec<Option<String>> {
    items.iter().map(|g| g.map(|s| s.to_owned())).collect()
}

#[test]
fn event_from_captures_reads_each_group() {
    let line = "ab Content-Type: a/b; y";
    let caps = groups(&[
        Some("whole"),
        Some("198.51.100.9"),
        Some("POST"),
        Some("/login"),
        Some("401"),
        None,
        Some("curl/8.0"),
        Some("Content-Type: text/plain"),
    ]);
    let ev = event_from_captures(&caps, line, "ab content-type: a/b; y").unwrap();
    assert_eq!(ev.raw_line, line);
    assert_eq!(ev.ip, "198.51.100.9");
    assert_eq!(ev.method, "POST");
    assert_eq!(ev.path, "/login");
    assert_eq!(ev.status, 401);
    assert_eq!(ev.referer, "-");
    assert_eq!(ev.user_agent, "curl/8.0");
    assert_eq!(ev.headers, "Content-Type: text/plain");
    assert_eq!(ev.content_type, "a/b");
    let no_headers = groups(&[Some("w"), Some("1.1.1.1"), Some("GET"), Some("/"), Some("200")]);
    let ev2 = event_from_captures(&no_headers, "GET", "get").unwrap();
    assert_eq!(ev2.referer, "-");
    assert_eq!(ev2.user_agent, "-");
    assert_eq!(ev2.headers, "");
}

#[test]
fn event_from_captures_refuses_missing_fields_and_bad_status() {
    let missing_path = groups(&[Some("w"), Some("1.1.1.1"), Some("GET"), None, Some("200")]);
    assert!(event_from_captures(&missing_path, "l", "l").is_none());
    let big_status = groups(&[Some("w"), Some("1.1.1.1"), Some("GET"), Some("/"), Some("70000")]);
    assert!(event_from_captures(&big_status, "l", "l").is_none());
    assert!(event_from_captures(&groups(&[Some("w")]), "l", "l").is_none());
}

#[test]
fn content_type_uses_the_given_lowercase_text() {
    let line = "ab CONTENT-TYPE: Text/HTML; q";
    assert_eq!(extract_content_type_lowered(line, "ab content-type: text/html; q"), "Text/HTML");
    assert_eq!(extract_content_type_lowered(line, "no header"), "");
    assert!(content_type_is_sliceable_lowered(line, "ab content-type: text/html; q"));
    // An offset past the end of the line cannot be sliced.
    assert!(!content_type_is_sliceable_lowered("short", "a much longer content-type: x"));
    assert!(content_type_is_sliceable(line));
    assert_eq!(extract_content_type(line), "Text/HTML");
}

#[test]
fn screening_on_lowercased_text() {
    assert!(is_static_ok_lowered(200, "/app.js"));
    assert!(!is_static_ok_lowered(200, "/APP.JS"));
    assert!(!is_static_ok_lowered(304, "/app.js"));
    assert!(!is_static_ok_lowered(200, "/union.js"));
    assert!(is_suspicious_lowered(200, "/p?id=1%27", "mozilla"));
    assert!(is_suspicious_lowered(200, "/home", "sqlmap/1.7"));
    assert!(!is_suspicious_lowered(200, "/home", "SQLMAP/1.7"));
    assert!(is_suspicious_lowered(404, "/missing", "mozilla"));
    assert!(!is_suspicious_lowered(200, "/app.css", "sqlmap"));
    assert!(is_suspicious_lowered(404, "/app.css", "mozilla"));
    assert!(!is_suspicious_lowered(200, "/home", "mozilla"));
}

#[test]
fn ascii_case_does_not_change_screening() {
    let pairs = [
        ("/P?Q=UNION+SELECT", "/p?q=union+select", "Mozilla", "MOZILLA"),
        ("/Static/App.JS", "/static/app.js", "x", "X"),
        ("/home", "/HOME", "SqlMap/1.7", "sqlmap/1.7"),
        ("/ETC/PASSWD", "/etc/passwd", "a", "a"),
    ];
    for (p1, p2, u1, u2) in pairs {
        for status in [200u16, 301, 404] {
            assert_eq!(is_static_ok(&event(p1, status, u1)), is_static_ok(&event(p2, status, u2)));
            assert_eq!(is_suspicious(&event(p1, status, u1)), is_suspicious(&event(p2, status, u2)));
        }
    }
    assert!(is_suspicious(&event("/home", 200, "SqlMap/1.7")));
    assert!(is_static_ok(&event("/Static/App.JS", 200, "x")));
}

#[test]
fn ascii_lines_are_always_screened() {
    let line = r#"1.2.3.4 - - [21/Mar/2025:12:00:00 +0000] "GET /x HTTP/1.1" 404 1 "-" "UA" "CONTENT-TYPE: A/B""#;
    assert!(content_type_is_sliceable(line));
    let ev = screen_log_line(line).unwrap().expect("404 is suspicious");
    assert_eq!(ev.content_type, "A/B");
}
