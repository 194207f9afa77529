use vanguard_rs::models::{AnalysisFinding, Outcome, ScanReport, Severity};
use vanguard_rs::dns::dns_results_from;
use vanguard_rs::fingerprint::fingerprint_results_from;
use vanguard_rs::headers::headers_results_from;
use vanguard_rs::scoring::{all_findings, compute_score, count_by_severity, score_rating, summarize};
use vanguard_rs::tls::{ssl_results_from, TlsObservation};

#[test]
fn score_examples() {
    assert_eq!(compute_score(2, 1), 65);
    assert_eq!(compute_score(10, 0), 0);
    assert_eq!(compute_score(0, 0), 100);
    assert_eq!(compute_score(0, 20), 0);
    assert_eq!(compute_score(6, 2), 0);
    assert_eq!(compute_score(usize::MAX, usize::MAX), 0);
}

#[test]
fn summary_of_report() {
    let mut report = ScanReport::default();
    report.dns_results.analysis = vec![
        AnalysisFinding::new(Severity::Critical, "DNS_DMARC_MISSING"),
        AnalysisFinding::new(Severity::Info, "DNS_CAA_MISSING"),
    ];
    report.ssl_results.analysis = vec![AnalysisFinding::new(Severity::Critical, "SSL_HANDSHAKE_FAILED")];
    report.ssl_results.scan = Outcome::Failed("refused".to_string());
    report.headers_results.analysis = vec![AnalysisFinding::new(Severity::Warning, "HEADERS_CSP_MISSING")];
    let all = all_findings(&report);
    assert_eq!(all.len(), 4);
    assert_eq!(all[2].code, "SSL_HANDSHAKE_FAILED");
    assert_eq!(count_by_severity(&all, Severity::Info), 1);
    let s = summarize(&report);
    assert_eq!(s.critical_issues, 2);
    assert_eq!(s.warning_issues, 1);
    assert_eq!(s.score, 65);
    assert!(s.dns_check_passed);
    assert!(!s.ssl_check_passed);
    assert!(s.headers_check_passed);
}

#[test]
fn summary_header_request_failure_fails_check() {
    let mut report = ScanReport::default();
    report.headers_results.error = Some("HTTP request failed".to_string());
    report.dns_results.caa = Outcome::Failed("DNS Error: timeout".to_string());
    let s = summarize(&report);
    assert!(!s.headers_check_passed);
    assert!(!s.dns_check_passed);
    assert_eq!(s.score, 100);
}

#[test]
fn unreachable_host_scenario() {
    let report = ScanReport {
        dns_results: dns_results_from(
            Ok(vec!["v=spf1 -all".to_string()]),
            Ok(vec!["v=DMARC1; p=reject".to_string()]),
            &vec![("google".to_string(), Ok(vec!["v=DKIM1; p=K".to_string()]))],
            Ok(vec!["0 issue \"letsencrypt.org\"".to_string()]),
        ),
        ssl_results: ssl_results_from(TlsObservation::Failed("TCP Connection Error: unreachable".to_string()), 0),
        headers_results: headers_results_from(Err("HTTP request failed: unreachable".to_string())),
        fingerprint_results: fingerprint_results_from(Err("HTTP request failed: unreachable".to_string())),
    };
    assert!(matches!(report.ssl_results.scan, Outcome::Failed(_)));
    assert!(report.headers_results.error.is_some());
    assert!(report.dns_results.analysis.is_empty());
    assert!(matches!(report.dns_results.spf, Outcome::Found(_)));
    let s = summarize(&report);
    assert_eq!(s.critical_issues, 2);
    assert_eq!(s.score, 70);
    assert!(s.dns_check_passed);
}

#[test]
fn score_ratings() {
    assert_eq!(score_rating(100), "Excellent");
    assert_eq!(score_rating(90), "Excellent");
    assert_eq!(score_rating(89), "Good");
    assert_eq!(score_rating(65), "Needs Improvement");
    assert_eq!(score_rating(49), "Poor");
    assert_eq!(score_rating(0), "Poor");
}
