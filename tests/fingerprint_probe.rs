use vanguard_rs::fingerprint::{
    check_with_regex, cookie_text, detect_technologies, fingerprint_results_from, fingerprint_rules,
    record_match, CheckKind, FingerprintRule, ResponseEvidence,
};
use vanguard_rs::headers::HeaderEntry;
use vanguard_rs::models::Technology;

fn h(name: &str, value: &str) -> HeaderEntry {
    HeaderEntry { name: name.to_string(), value: Some(value.to_string()) }
}

fn evidence(headers: Vec<HeaderEntry>, body: &str) -> ResponseEvidence {
    ResponseEvidence { headers, body: body.to_string() }
}

fn find<'a>(v: &'a [Technology], name: &str) -> Option<&'a Technology> {
    v.iter().find(|t| t.name == name)
}

#[test]
fn regex_versions() {
    assert_eq!(check_with_regex("nginx/1.25.3", "nginx/([\\d\\.]+)"), Some(Some("1.25.3".to_string())));
    assert_eq!(check_with_regex("cloudflare", "cloudflare"), Some(None));
    assert_eq!(check_with_regex("apache", "nginx"), None);
    assert_eq!(check_with_regex("ab", "a(x*)b"), Some(None));
}

#[test]
fn header_then_body_rule_fills_version() {
    let rules = vec![
        FingerprintRule { tech_name: "Acme", category: "Web Server", check: CheckKind::Header("server"), pattern: "acme" },
        FingerprintRule { tech_name: "Acme", category: "Web Server", check: CheckKind::Body, pattern: "Acme v([\\d\\.]+)" },
    ];
    let ev = evidence(vec![h("Server", "acme")], "<p>Powered by Acme v2.3.4</p>");
    let found = detect_technologies(&rules, &ev);
    assert_eq!(found.len(), 1);
    assert_eq!(found[0].name, "Acme");
    assert_eq!(found[0].version, Some("2.3.4".to_string()));
}

#[test]
fn captured_version_is_never_overwritten() {
    let mut found = Vec::new();
    record_match(&mut found, "X", "Cat", Some("1.0".to_string()));
    record_match(&mut found, "X", "Cat", Some("2.0".to_string()));
    record_match(&mut found, "X", "Cat", None);
    assert_eq!(found.len(), 1);
    assert_eq!(found[0].version, Some("1.0".to_string()));
}

#[test]
fn version_filled_in_once() {
    let mut found = Vec::new();
    record_match(&mut found, "X", "Cat", None);
    record_match(&mut found, "Y", "Other", None);
    record_match(&mut found, "X", "Cat", Some("2.3.4".to_string()));
    assert_eq!(found.len(), 2);
    assert_eq!(found[0].version, Some("2.3.4".to_string()));
    assert_eq!(found[1].version, None);
}

#[test]
fn registry_detects_server_and_language() {
    let ev = evidence(
        vec![h("server", "nginx/1.25.3"), h("x-powered-by", "PHP/8.2.1"), h("set-cookie", "PHPSESSID=abc; path=/")],
        "<html><body>hello</body></html>",
    );
    let r = fingerprint_results_from(Ok(ev));
    let techs = r.technologies.unwrap();
    assert_eq!(techs.len(), 2);
    let nginx = find(&techs, "Nginx").unwrap();
    assert_eq!(nginx.category, "Web Server");
    assert_eq!(nginx.version, Some("1.25.3".to_string()));
    assert_eq!(find(&techs, "PHP").unwrap().version, Some("8.2.1".to_string()));
}

#[test]
fn registry_reads_the_page() {
    let body = r#"<html><head><meta name="generator" content="WordPress 6.4.2">
<script src="/_next/static/chunks/main.js"></script>
<link rel="stylesheet" href="/css/bootstrap.min.css"></head>
<body><div id="app" data-v-app></div><a href="/wp-login.php">login</a></body></html>"#;
    let r = fingerprint_results_from(Ok(evidence(Vec::new(), body)));
    let techs = r.technologies.unwrap();
    assert_eq!(find(&techs, "WordPress").unwrap().version, Some("6.4.2".to_string()));
    assert_eq!(find(&techs, "Next.js").unwrap().version, None);
    assert_eq!(find(&techs, "Bootstrap").unwrap().category, "UI Framework");
    assert!(find(&techs, "Vue.js").is_some());
    assert!(find(&techs, "Nginx").is_none());
    assert_eq!(techs.iter().filter(|t| t.name == "WordPress").count(), 1);
}

#[test]
fn registry_fallback_signal_without_headers() {
    let body = "<html><body><center><h1>502 Bad Gateway</h1></center><hr><center>nginx</center></body></html>";
    let techs = fingerprint_results_from(Ok(evidence(Vec::new(), body))).technologies.unwrap();
    assert_eq!(techs.len(), 1);
    assert_eq!(techs[0].name, "Nginx");
    assert_eq!(techs[0].version, None);
}

#[test]
fn cookies_joined() {
    let hs = vec![h("Set-Cookie", "a=1"), h("server", "x"), h("set-cookie", "b=2")];
    assert_eq!(cookie_text(&hs), "a=1; b=2");
    assert_eq!(cookie_text(&Vec::new()), "");
    let ev = evidence(vec![h("set-cookie", "x=1"), h("set-cookie", "_rails_session=abc")], "");
    let techs = fingerprint_results_from(Ok(ev)).technologies.unwrap();
    assert_eq!(techs.len(), 1);
    assert_eq!(techs[0].name, "Ruby on Rails");
}

#[test]
fn fingerprint_request_failure() {
    let r = fingerprint_results_from(Err("HTTP request failed: timeout".to_string()));
    assert_eq!(r.technologies.unwrap_err(), "HTTP request failed: timeout");
}

#[test]
fn registry_size() {
    let rules = fingerprint_rules();
    assert_eq!(rules.len(), 32);
    assert_eq!(rules[0].tech_name, "Nginx");
    assert_eq!(rules[31].tech_name, "Google Analytics");
}
