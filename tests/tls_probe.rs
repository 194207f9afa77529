use vanguard_rs::models::{Outcome, Severity};
use vanguard_rs::tls::{certificate_from, days_until, evaluate_certificate, ssl_results_from, TlsObservation};

const DAY: i64 = 86400;
const NOW: i64 = 1_760_000_000;

#[test]
fn days_round_up() {
    assert_eq!(days_until(NOW + 10 * DAY, NOW), 10);
    assert_eq!(days_until(NOW + 10 * DAY - 1, NOW), 10);
    assert_eq!(days_until(NOW + 1, NOW), 1);
    assert_eq!(days_until(NOW, NOW), 0);
    assert_eq!(days_until(NOW - 1, NOW), 0);
    assert_eq!(days_until(NOW - DAY, NOW), -1);
    assert_eq!(days_until(NOW - DAY - 1, NOW), -1);
    assert_eq!(days_until(i64::MIN, i64::MAX), -213503982334601);
}

#[test]
fn certificate_expiring_in_ten_days() {
    let d = evaluate_certificate("CN=a".to_string(), "CN=ca".to_string(), NOW - 80 * DAY, NOW + 10 * DAY, NOW);
    assert!(d.is_valid);
    assert_eq!(d.certificate_info.days_until_expiry, 10);
    assert_eq!(d.certificate_info.subject_name, "CN=a");
    let r = ssl_results_from_data(d);
    assert_eq!(r, vec![(Severity::Warning, "SSL_EXPIRING_SOON".to_string())]);
}

#[test]
fn certificate_expired() {
    let d = evaluate_certificate("CN=a".to_string(), "CN=ca".to_string(), NOW - 400 * DAY, NOW - 5 * DAY, NOW);
    assert!(!d.is_valid);
    assert!(d.certificate_info.days_until_expiry < 0);
    let r = ssl_results_from_data(d);
    assert_eq!(r, vec![(Severity::Critical, "SSL_EXPIRED".to_string())]);
}

#[test]
fn certificate_not_yet_valid_counts_as_expired() {
    let d = evaluate_certificate("CN=a".to_string(), "CN=ca".to_string(), NOW + DAY, NOW + 90 * DAY, NOW);
    assert!(!d.is_valid);
    let r = ssl_results_from_data(d);
    assert_eq!(r, vec![(Severity::Critical, "SSL_EXPIRED".to_string())]);
}

#[test]
fn certificate_window_bounds_are_inclusive() {
    assert!(evaluate_certificate(String::new(), String::new(), NOW, NOW + DAY, NOW).is_valid);
    assert!(evaluate_certificate(String::new(), String::new(), NOW - DAY, NOW, NOW).is_valid);
}

#[test]
fn healthy_certificate_draws_nothing() {
    let d = evaluate_certificate("CN=a".to_string(), "CN=ca".to_string(), NOW - DAY, NOW + 31 * DAY, NOW);
    assert!(ssl_results_from_data(d).is_empty());
}

fn ssl_results_from_data(d: vanguard_rs::models::SslData) -> Vec<(Severity, String)> {
    let r = vanguard_rs::models::SslResults { scan: Outcome::Found(d), analysis: Vec::new() };
    vanguard_rs::tls::analyze_ssl_results(&r).into_iter().map(|f| (f.severity, f.code)).collect()
}

#[test]
fn unreachable_host_fails_exclusively() {
    let r = ssl_results_from(TlsObservation::Failed("TCP Connection Error: refused".to_string()), NOW);
    match &r.scan {
        Outcome::Failed(m) => assert_eq!(m, "TCP Connection Error: refused"),
        _ => panic!("expected a failure"),
    }
    assert_eq!(r.analysis.len(), 1);
    assert_eq!(r.analysis[0].severity, Severity::Critical);
    assert_eq!(r.analysis[0].code, "SSL_HANDSHAKE_FAILED");
}

#[test]
fn no_certificate_draws_warning() {
    let r = ssl_results_from(TlsObservation::NoCertificate, NOW);
    assert!(matches!(r.scan, Outcome::NotFound));
    assert_eq!(r.analysis.len(), 1);
    assert_eq!(r.analysis[0].severity, Severity::Warning);
    assert_eq!(r.analysis[0].code, "SSL_NO_CERTIFICATE_FOUND");
}

#[test]
fn undecodable_certificate_fails() {
    let r = certificate_from(TlsObservation::Certificate(vec![0x30, 0x03, 0x01, 0x02]), NOW);
    match r {
        Outcome::Failed(m) => assert!(m.starts_with("X.509 Parse Error")),
        _ => panic!("expected a failure"),
    }
}

/// A self-signed root certificate (Amazon Root CA 3), DER form.
const ROOT_CA_3: [u8; 442] = [
    48, 130, 1, 182, 48, 130, 1, 91, 160, 3, 2, 1, 2, 2, 19, 6, 108, 159, 213, 116,
    151, 54, 102, 63, 59, 11, 154, 217, 232, 158, 118, 3, 242, 74, 48, 10, 6, 8, 42, 134,
    72, 206, 61, 4, 3, 2, 48, 57, 49, 11, 48, 9, 6, 3, 85, 4, 6, 19, 2, 85,
    83, 49, 15, 48, 13, 6, 3, 85, 4, 10, 19, 6, 65, 109, 97, 122, 111, 110, 49, 25,
    48, 23, 6, 3, 85, 4, 3, 19, 16, 65, 109, 97, 122, 111, 110, 32, 82, 111, 111, 116,
    32, 67, 65, 32, 51, 48, 30, 23, 13, 49, 53, 48, 53, 50, 54, 48, 48, 48, 48, 48,
    48, 90, 23, 13, 52, 48, 48, 53, 50, 54, 48, 48, 48, 48, 48, 48, 90, 48, 57, 49,
    11, 48, 9, 6, 3, 85, 4, 6, 19, 2, 85, 83, 49, 15, 48, 13, 6, 3, 85, 4,
    10, 19, 6, 65, 109, 97, 122, 111, 110, 49, 25, 48, 23, 6, 3, 85, 4, 3, 19, 16,
    65, 109, 97, 122, 111, 110, 32, 82, 111, 111, 116, 32, 67, 65, 32, 51, 48, 89, 48, 19,
    6, 7, 42, 134, 72, 206, 61, 2, 1, 6, 8, 42, 134, 72, 206, 61, 3, 1, 7, 3,
    66, 0, 4, 41, 151, 167, 198, 65, 127, 192, 13, 155, 232, 1, 27, 86, 198, 242, 82, 165,
    186, 45, 178, 18, 232, 210, 46, 215, 250, 201, 197, 216, 170, 109, 31, 115, 129, 59, 59, 152,
    107, 57, 124, 51, 165, 197, 78, 134, 142, 128, 23, 104, 98, 69, 87, 125, 68, 88, 29, 179,
    55, 229, 103, 8, 235, 102, 222, 163, 66, 48, 64, 48, 15, 6, 3, 85, 29, 19, 1, 1,
    255, 4, 5, 48, 3, 1, 1, 255, 48, 14, 6, 3, 85, 29, 15, 1, 1, 255, 4, 4,
    3, 2, 1, 134, 48, 29, 6, 3, 85, 29, 14, 4, 22, 4, 20, 171, 182, 219, 215, 6,
    158, 55, 172, 48, 134, 7, 145, 112, 199, 156, 196, 25, 177, 120, 192, 48, 10, 6, 8, 42,
    134, 72, 206, 61, 4, 3, 2, 3, 73, 0, 48, 70, 2, 33, 0, 224, 133, 146, 163, 23,
    183, 141, 249, 43, 6, 165, 147, 172, 26, 152, 104, 97, 114, 250, 225, 161, 208, 251, 28, 120,
    96, 166, 67, 153, 197, 184, 196, 2, 33, 0, 156, 2, 239, 241, 148, 156, 179, 150, 249, 235,
    198, 42, 248, 182, 44, 254, 58, 144, 20, 22, 215, 140, 99, 36, 72, 28, 223, 48, 125, 213,
    104, 59,
];

#[test]
fn decodes_a_real_certificate() {
    let now = 1_760_000_000;
    let r = ssl_results_from(TlsObservation::Certificate(ROOT_CA_3.to_vec()), now);
    match &r.scan {
        Outcome::Found(d) => {
            assert_eq!(d.certificate_info.not_before, 1_432_598_400);
            assert_eq!(d.certificate_info.not_after, 2_221_603_200);
            assert!(d.certificate_info.subject_name.contains("Amazon Root CA 3"));
            assert_eq!(d.certificate_info.subject_name, d.certificate_info.issuer_name);
            assert!(d.is_valid);
            assert_eq!(d.certificate_info.days_until_expiry, 5343);
        }
        _ => panic!("expected a certificate"),
    }
    assert!(r.analysis.is_empty());
}
