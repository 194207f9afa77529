//! TLS probe logic: what the handshake yielded, the certificate's validity
//! window against the scan time, and the findings drawn from it. The
//! connection itself is made at the edge, on a worker thread.
use vstd::prelude::*;
use crate::models::{
    AnalysisFinding, CertificateInfo, Outcome, Severity, SslData, SslResults, findings_view,
};

verus! {

/// What the blocking TLS exchange with `<target>:443` yielded.
#[derive(Debug, Clone)]
pub enum TlsObservation {
    /// Setting up, connecting, the handshake or reading the peer
    /// certificate failed, with the reason.
    Failed(String),
    /// The handshake succeeded but the peer presented no certificate.
    NoCertificate,
    /// The handshake succeeded; the leaf certificate in DER form.
    Certificate(Vec<u8>),
}

/// The fields read out of a certificate.
#[derive(Debug, Clone)]
pub struct DecodedCertificate {
    pub subject: String,
    pub issuer: String,
    pub not_before: i64,
    pub not_after: i64,
}

/// What decoding the DER bytes `der` as an X.509 certificate yields: its
/// subject, its issuer and the bounds of its validity window as Unix
/// timestamps, or `None` where the bytes do not decode.
pub uninterp spec fn x509_decoded(der: Seq<u8>) -> Option<(Seq<char>, Seq<char>, i64, i64)>;

/// Relies on `x509_parser::parse_x509_certificate`, with the `Display` of
/// the subject and issuer names and `ASN1Time::timestamp` of the validity
/// bounds: the outcome depends on the bytes alone.
#[verifier::external_body]
fn decode_certificate(der: &Vec<u8>) -> (r: Result<DecodedCertificate, String>)
    ensures
        r matches Ok(c) ==> x509_decoded(der@) == Some((c.subject@, c.issuer@, c.not_before, c.not_after)),
        r is Err ==> x509_decoded(der@) is None,
{
    match x509_parser::parse_x509_certificate(der.as_slice()) {
        Ok((_, x)) => Ok(DecodedCertificate {
            subject: x.subject().to_string(),
            issuer: x.issuer().to_string(),
            not_before: x.validity().not_before.timestamp(),
            not_after: x.validity().not_after.timestamp(),
        }),
        Err(e) => Err(format!("X.509 Parse Error: {}", e)),
    }
}

/// Whole days from `now` until `not_after`, rounded up: `ceil(secs / 86400)`.
pub open spec fn days_until_spec(not_after: int, now: int) -> int {
    -((now - not_after) / 86400)
}

/// `now` lies in the validity window `[not_before, not_after]`.
pub open spec fn valid_at(not_before: int, not_after: int, now: int) -> bool {
    not_before <= now <= not_after
}

/// Whole days from `now` until `not_after`, rounded up; negative once the
/// instant is more than a day past.
pub fn days_until(not_after: i64, now: i64) -> (r: i64)
    ensures
        r == days_until_spec(not_after as int, now as int),
{
    let diff: i128 = not_after as i128 - now as i128;
    if diff >= 0 {
        let q: i128 = (diff + 86399) / 86400;
        proof {
            let d = diff as int;
            assert(q == (d + 86399) / 86400);
            assert(-((-d) / 86400) == (d + 86399) / 86400) by (nonlinear_arith)
                requires
                    d >= 0,
            {
                let k = (d + 86399) / 86400;
                let m = (d + 86399) % 86400;
                assert(d + 86399 == 86400 * k + m);
                let k2 = (-d) / 86400;
                let m2 = (-d) % 86400;
                assert(-d == 86400 * k2 + m2);
                assert(0 <= m < 86400);
                assert(0 <= m2 < 86400);
            }
        }
        q as i64
    } else {
        let m: i128 = (-diff) / 86400;
        m as i64 * -1
    }
}

/// The certificate as the scan sees it at `now`.
pub open spec fn certificate_view(d: SslData, subject: Seq<char>, issuer: Seq<char>, not_before: i64, not_after: i64, now: i64) -> bool {
    &&& d.certificate_info.subject_name@ == subject
    &&& d.certificate_info.issuer_name@ == issuer
    &&& d.certificate_info.not_before == not_before
    &&& d.certificate_info.not_after == not_after
    &&& d.certificate_info.days_until_expiry == days_until_spec(not_after as int, now as int)
    &&& d.is_valid == valid_at(not_before as int, not_after as int, now as int)
}

/// Evaluates a decoded certificate at the instant `now`.
pub fn evaluate_certificate(subject: String, issuer: String, not_before: i64, not_after: i64, now: i64) -> (r: SslData)
    ensures
        certificate_view(r, subject@, issuer@, not_before, not_after, now),
{
    let days_until_expiry = days_until(not_after, now);
    let is_valid = not_before <= now && now <= not_after;
    SslData {
        is_valid,
        certificate_info: CertificateInfo {
            subject_name: subject,
            issuer_name: issuer,
            not_before,
            not_after,
            days_until_expiry,
        },
    }
}

/// `o` is what the TLS probe makes of `obs` at the instant `now`.
pub open spec fn certificate_outcome(obs: TlsObservation, now: i64, o: Outcome<SslData>) -> bool {
    match obs {
        TlsObservation::Failed(m) => o matches Outcome::Failed(m2) && m2@ == m@,
        TlsObservation::NoCertificate => o is NotFound,
        TlsObservation::Certificate(der) => match x509_decoded(der@) {
            None => o is Failed,
            Some((subject, issuer, nb, na)) => o matches Outcome::Found(d) && certificate_view(
                d,
                subject,
                issuer,
                nb,
                na,
                now,
            ),
        },
    }
}

/// Turns what the TLS exchange yielded into the certificate outcome.
pub fn certificate_from(obs: TlsObservation, now: i64) -> (r: Outcome<SslData>)
    ensures
        certificate_outcome(obs, now, r),
{
    match obs {
        TlsObservation::Failed(m) => Outcome::Failed(m),
        TlsObservation::NoCertificate => Outcome::NotFound,
        TlsObservation::Certificate(der) => match decode_certificate(&der) {
            Err(m) => Outcome::Failed(m),
            Ok(c) => Outcome::Found(evaluate_certificate(c.subject, c.issuer, c.not_before, c.not_after, now)),
        },
    }
}

/// The findings that the TLS rules draw from the certificate outcome. A
/// failure draws only `SSL_HANDSHAKE_FAILED`.
pub open spec fn ssl_findings(o: Outcome<SslData>) -> Seq<(Severity, Seq<char>)> {
    match o {
        Outcome::Failed(_) => seq![(Severity::Critical, "SSL_HANDSHAKE_FAILED"@)],
        Outcome::NotFound => seq![(Severity::Warning, "SSL_NO_CERTIFICATE_FOUND"@)],
        Outcome::Found(d) => {
            let expired: Seq<(Severity, Seq<char>)> = if !d.is_valid {
                seq![(Severity::Critical, "SSL_EXPIRED"@)]
            } else {
                Seq::empty()
            };
            let days = d.certificate_info.days_until_expiry;
            let soon: Seq<(Severity, Seq<char>)> = if 0 <= days <= 30 {
                seq![(Severity::Warning, "SSL_EXPIRING_SOON"@)]
            } else {
                Seq::empty()
            };
            expired + soon
        },
    }
}

/// Applies the TLS rules to the certificate outcome.
pub fn analyze_ssl_results(results: &SslResults) -> (r: Vec<AnalysisFinding>)
    ensures
        findings_view(r@) == ssl_findings(results.scan),
{
    let mut out: Vec<AnalysisFinding> = Vec::new();
    match &results.scan {
        Outcome::Failed(_) => {
            out.push(AnalysisFinding::new(Severity::Critical, "SSL_HANDSHAKE_FAILED"));
        },
        Outcome::NotFound => {
            out.push(AnalysisFinding::new(Severity::Warning, "SSL_NO_CERTIFICATE_FOUND"));
        },
        Outcome::Found(d) => {
            if !d.is_valid {
                out.push(AnalysisFinding::new(Severity::Critical, "SSL_EXPIRED"));
            }
            let days = d.certificate_info.days_until_expiry;
            if 0 <= days && days <= 30 {
                out.push(AnalysisFinding::new(Severity::Warning, "SSL_EXPIRING_SOON"));
            }
        },
    }
    assert(findings_view(out@) =~= ssl_findings(results.scan));
    out
}

/// Everything the TLS probe does once the exchange is over: the outcome at
/// the instant `now` and its findings.
pub fn ssl_results_from(obs: TlsObservation, now: i64) -> (r: SslResults)
    ensures
        certificate_outcome(obs, now, r.scan),
        findings_view(r.analysis@) == ssl_findings(r.scan),
{
    let mut r = SslResults { scan: certificate_from(obs, now), analysis: Vec::new() };
    r.analysis = analyze_ssl_results(&r);
    r
}

/// A certificate valid at `now` whose end is at most 30 days ahead
/// (rounded up) draws exactly one finding, the warning
/// `SSL_EXPIRING_SOON`, and in particular no `SSL_EXPIRED`.
pub proof fn lemma_expiring_soon_only(d: SslData, subject: Seq<char>, issuer: Seq<char>, not_before: i64, not_after: i64, now: i64)
    requires
        certificate_view(d, subject, issuer, not_before, not_after, now),
        not_before <= now <= not_after,
        days_until_spec(not_after as int, now as int) <= 30,
    ensures
        d.is_valid,
        ssl_findings(Outcome::Found(d)) == seq![(Severity::Warning, "SSL_EXPIRING_SOON"@)],
{
    assert(0 <= days_until_spec(not_after as int, now as int)) by (nonlinear_arith)
        requires
            now <= not_after,
    {
        let x = now - not_after;
        assert(x <= 0);
        assert(x / 86400 <= 0);
    }
    assert(ssl_findings(Outcome::Found(d)) =~= seq![(Severity::Warning, "SSL_EXPIRING_SOON"@)]);
}

/// A certificate whose end lies at least a day before `now` is invalid and
/// draws exactly one finding, the critical `SSL_EXPIRED`, and no
/// `SSL_EXPIRING_SOON`.
pub proof fn lemma_expired_only(d: SslData, subject: Seq<char>, issuer: Seq<char>, not_before: i64, not_after: i64, now: i64)
    requires
        certificate_view(d, subject, issuer, not_before, not_after, now),
        not_after as int + 86400 <= now as int,
    ensures
        !d.is_valid,
        d.certificate_info.days_until_expiry < 0,
        ssl_findings(Outcome::Found(d)) == seq![(Severity::Critical, "SSL_EXPIRED"@)],
{
    assert(days_until_spec(not_after as int, now as int) < 0) by (nonlinear_arith)
        requires
            not_after as int + 86400 <= now as int,
    {
        let x = now - not_after;
        assert(x >= 86400);
        assert(x / 86400 >= 1);
    }
    assert(ssl_findings(Outcome::Found(d)) =~= seq![(Severity::Critical, "SSL_EXPIRED"@)]);
}

/// A failed exchange draws exactly one finding, the critical
/// `SSL_HANDSHAKE_FAILED`, and nothing else.
pub proof fn lemma_handshake_failure_exclusive(o: Outcome<SslData>)
    requires
        o is Failed,
    ensures
        ssl_findings(o) == seq![(Severity::Critical, "SSL_HANDSHAKE_FAILED"@)],
{
}

} // verus!
