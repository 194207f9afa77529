use vanguard_rs::knowledge_base::{get_finding_detail, FindingCategory};
use vanguard_rs::models::{AnalysisFinding, Outcome, ScanReport, Severity};
use vanguard_rs::session::{export_file_name, target_host, App, Key, SessionAction};
use vanguard_rs::paths::data_dir_or_default;
use vanguard_rs::session::{
    advance_displayed_score, first_selection, next_selection, next_spinner_frame, previous_selection, AppState,
};

#[test]
fn registry_lookup() {
    let d = get_finding_detail("DNS_DMARC_MISSING").unwrap();
    assert_eq!(d.code, "DNS_DMARC_MISSING");
    assert_eq!(d.title, "DMARC Record Missing");
    assert!(d.description.starts_with("DMARC is an email authentication policy"));
    assert!(d.remediation.starts_with("Add a DMARC record"));
    assert_eq!(d.severity, Severity::Critical);
    assert_eq!(d.category, FindingCategory::Dns);
    let x = get_finding_detail("HEADERS_X_CONTENT_TYPE_OPTIONS_MISSING").unwrap();
    assert_eq!(x.severity, Severity::Info);
    assert_eq!(x.category, FindingCategory::Http);
    assert_eq!(get_finding_detail("SSL_NO_CERTIFICATE_FOUND").unwrap().severity, Severity::Warning);
    assert!(get_finding_detail("NOPE").is_none());
    assert!(get_finding_detail("dns_dmarc_missing").is_none());
}

#[test]
fn category_labels() {
    assert_eq!(FindingCategory::Dns.label(), "DNS Configuration");
    assert_eq!(FindingCategory::Ssl.label(), "SSL/TLS Certificate");
    assert_eq!(FindingCategory::Http.label(), "HTTP Security Headers");
}

#[test]
fn finding_constructor() {
    let f = AnalysisFinding::new(Severity::Warning, "HEADERS_HSTS_MISSING");
    assert_eq!(f.severity, Severity::Warning);
    assert_eq!(f.code, "HEADERS_HSTS_MISSING");
}

#[test]
fn outcome_states() {
    let a: Outcome<u8> = Outcome::Found(1);
    let b: Outcome<u8> = Outcome::NotFound;
    let c: Outcome<u8> = Outcome::Failed("e".to_string());
    assert!(a.is_ok() && b.is_ok() && !c.is_ok());
}

#[test]
fn selection_wraps() {
    assert_eq!(next_selection(Some(2), 3), Some(0));
    assert_eq!(next_selection(Some(0), 3), Some(1));
    assert_eq!(next_selection(None, 3), Some(0));
    assert_eq!(next_selection(Some(1), 0), Some(1));
    assert_eq!(previous_selection(Some(0), 3), Some(2));
    assert_eq!(previous_selection(Some(2), 3), Some(1));
    assert_eq!(previous_selection(None, 3), Some(0));
    assert_eq!(previous_selection(None, 0), None);
    assert_eq!(first_selection(0), None);
    assert_eq!(first_selection(5), Some(0));
}

#[test]
fn spinner_and_score_animation() {
    assert_eq!(next_spinner_frame(0), 1);
    assert_eq!(next_spinner_frame(3), 0);
    assert_eq!(advance_displayed_score(0, 65), 2);
    assert_eq!(advance_displayed_score(64, 65), 65);
    assert_eq!(advance_displayed_score(65, 65), 65);
    assert_eq!(advance_displayed_score(254, 255), 255);
    assert_eq!(AppState::default(), AppState::Disclaimer);
}

#[test]
fn data_dir_fallback() {
    assert_eq!(data_dir_or_default(None), "./.data");
    assert_eq!(data_dir_or_default(Some("/home/u/.local/share/x".to_string())), "/home/u/.local/share/x");
}

#[test]
fn target_host_from_input() {
    assert_eq!(target_host("example.com"), "example.com");
    assert_eq!(target_host("https://www.example.com/path?q=1"), "www.example.com");
    assert_eq!(target_host("http://example.org:8080"), "example.org");
    assert_eq!(target_host("https://"), "https://");
}

#[test]
fn export_names() {
    assert_eq!(export_file_name("https://example.com/a/b", "20250101_120000"), "example.com_a_b-20250101_120000.json");
    assert_eq!(export_file_name("example.com", "T"), "example.com-T.json");
}

fn typed(app: &mut App, s: &str) {
    for c in s.chars() {
        app.handle_key(Key::Char(c));
    }
}

#[test]
fn session_flow() {
    let mut app = App::new();
    assert!(matches!(app.handle_key(Key::Char('x')), SessionAction::Nothing));
    assert_eq!(app.state, AppState::Disclaimer);
    app.handle_key(Key::Enter);
    assert_eq!(app.state, AppState::Idle);
    assert!(matches!(app.handle_key(Key::Enter), SessionAction::Nothing));
    typed(&mut app, "www.example.comm");
    app.handle_key(Key::Backspace);
    assert_eq!(app.input, "www.example.com");
    match app.handle_key(Key::Enter) {
        SessionAction::StartScan(t) => assert_eq!(t, "www.example.com"),
        _ => panic!("expected a scan"),
    }
    assert_eq!(app.state, AppState::Scanning);
    app.on_tick();
    assert_eq!(app.spinner_frame, 1);

    let mut report = ScanReport::default();
    report.dns_results.analysis = vec![
        AnalysisFinding::new(Severity::Critical, "DNS_DMARC_MISSING"),
        AnalysisFinding::new(Severity::Warning, "DNS_SPF_MISSING"),
    ];
    app.receive_report(report);
    assert_eq!(app.state, AppState::Finished);
    assert_eq!(app.summary.score, 80);
    assert_eq!(app.summary.critical_issues, 1);
    assert_eq!(app.summary.warning_issues, 1);
    assert!(app.summary.dns_check_passed && app.summary.ssl_check_passed && app.summary.headers_check_passed);
    assert_eq!(app.all_findings.len(), 2);
    assert_eq!(app.selected_finding, Some(0));
    app.on_tick();
    assert_eq!(app.displayed_score, 2);
    app.handle_key(Key::Down);
    assert_eq!(app.selected_finding, Some(1));
    app.handle_key(Key::Down);
    assert_eq!(app.selected_finding, Some(0));
    app.handle_key(Key::Up);
    assert_eq!(app.selected_finding, Some(1));
    assert!(matches!(app.handle_key(Key::Char('e')), SessionAction::Export));
    assert!(matches!(app.handle_key(Key::Char('L')), SessionAction::RefreshLogs));
    app.handle_key(Key::Left);
    assert_eq!(app.log_horizontal_scroll, 0);
    app.handle_key(Key::Right);
    assert_eq!(app.log_horizontal_scroll, 1);
    let logs_before = app.log_content.clone();
    let shown_before = app.displayed_score;
    app.handle_key(Key::Char('n'));
    assert_eq!(app.state, AppState::Idle);
    assert_eq!(app.summary.critical_issues, 0);
    assert_eq!(app.summary.warning_issues, 0);
    assert_eq!(app.summary.score, 0);
    assert!(!app.summary.dns_check_passed);
    assert_eq!(app.selected_finding, None);
    assert_eq!(app.log_content, logs_before);
    assert_eq!(app.displayed_score, shown_before);
    assert!(app.scan_report.is_none());
    assert!(app.all_findings.is_empty());
    app.handle_key(Key::Char('q'));
    assert!(app.should_quit);
}

#[test]
fn log_lines_newest_first() {
    let mut app = App::new();
    let lines: Vec<String> = (0..250).map(|i| format!("line {}", i)).collect();
    app.set_log_lines(lines);
    assert_eq!(app.log_content.len(), 200);
    assert_eq!(app.log_content[0], "line 249");
    assert_eq!(app.log_content[199], "line 50");
    app.set_log_lines(vec!["a".to_string(), "b".to_string()]);
    assert_eq!(app.log_content, vec!["b".to_string(), "a".to_string()]);
}
