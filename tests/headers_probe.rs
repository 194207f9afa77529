use vanguard_rs::headers::{check_header, find_header, headers_results_from, HeaderEntry};
use vanguard_rs::models::{Outcome, Severity};

fn h(name: &str, value: Option<&str>) -> HeaderEntry {
    HeaderEntry { name: name.to_string(), value: value.map(|v| v.to_string()) }
}

#[test]
fn header_names_ignore_case() {
    let hs = vec![h("Content-Type", Some("text/html")), h("Strict-Transport-Security", Some("max-age=1"))];
    match check_header(&hs, "strict-transport-security") {
        Outcome::Found(d) => assert_eq!(d.value, "max-age=1"),
        _ => panic!("expected the header"),
    }
    assert!(matches!(check_header(&hs, "x-frame-options"), Outcome::NotFound));
}

#[test]
fn header_first_value_wins() {
    let hs = vec![h("set-cookie", Some("a=1")), h("set-cookie", Some("b=2"))];
    assert_eq!(find_header(&hs, "SET-COOKIE"), Some(Some("a=1".to_string())));
}

#[test]
fn header_with_invalid_text_is_present() {
    let hs = vec![h("x-frame-options", None)];
    match check_header(&hs, "x-frame-options") {
        Outcome::Found(d) => assert_eq!(d.value, "[Invalid UTF-8]"),
        _ => panic!("expected the header"),
    }
}

#[test]
fn request_failure_short_circuits() {
    let r = headers_results_from(Err("HTTP request failed: connection refused".to_string()));
    assert_eq!(r.error, Some("HTTP request failed: connection refused".to_string()));
    assert_eq!(r.analysis.len(), 1);
    assert_eq!(r.analysis[0].severity, Severity::Critical);
    assert_eq!(r.analysis[0].code, "HEADERS_REQUEST_FAILED");
}

#[test]
fn missing_headers_draw_findings() {
    let r = headers_results_from(Ok(vec![h("strict-transport-security", Some("max-age=31536000"))]));
    assert!(r.error.is_none());
    let got: Vec<(Severity, String)> = r.analysis.iter().map(|f| (f.severity, f.code.clone())).collect();
    assert_eq!(
        got,
        vec![
            (Severity::Warning, "HEADERS_CSP_MISSING".to_string()),
            (Severity::Warning, "HEADERS_X_FRAME_OPTIONS_MISSING".to_string()),
            (Severity::Info, "HEADERS_X_CONTENT_TYPE_OPTIONS_MISSING".to_string()),
        ]
    );
}

#[test]
fn all_headers_present_draw_nothing() {
    let r = headers_results_from(Ok(vec![
        h("strict-transport-security", Some("max-age=1")),
        h("content-security-policy", Some("default-src 'self'")),
        h("x-frame-options", Some("DENY")),
        h("x-content-type-options", Some("nosniff")),
    ]));
    assert!(r.analysis.is_empty());
}
