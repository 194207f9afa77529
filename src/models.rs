//! Data model shared by the probes, the analysis rules and the scoring.
use vstd::prelude::*;
use vstd::string::StringExecFns;

verus! {

/// How much a finding matters; ordered by impact, Critical first.
#[derive(Debug, Clone, Copy, PartialEq, Eq, Structural)]
pub enum Severity {
    /// An issue that should be addressed immediately.
    Critical,
    /// A potential issue or a deviation from best practice.
    Warning,
    /// Informational, not necessarily a weakness.
    Info,
}

/// One coded observation about the scanned domain.
#[derive(Debug, Clone)]
pub struct AnalysisFinding {
    pub severity: Severity,
    pub code: String,
}

impl AnalysisFinding {
    /// Builds a finding from its severity and code.
    pub fn new(severity: Severity, code: &str) -> (r: Self)
        ensures
            r.severity == severity,
            r.code@ == code@,
    {
        AnalysisFinding { severity, code: String::from_str(code) }
    }
}

/// A list of findings seen as (severity, code) pairs.
pub open spec fn findings_view(v: Seq<AnalysisFinding>) -> Seq<(Severity, Seq<char>)> {
    v.map_values(|f: AnalysisFinding| (f.severity, f.code@))
}

/// How many findings of `s` carry `code`.
pub open spec fn count_code(s: Seq<(Severity, Seq<char>)>, code: Seq<char>) -> nat
    decreases s.len(),
{
    if s.len() == 0 {
        0
    } else {
        count_code(s.drop_last(), code) + if s.last().1 == code {
            1nat
        } else {
            0nat
        }
    }
}

pub proof fn lemma_count_code_concat(a: Seq<(Severity, Seq<char>)>, b: Seq<(Severity, Seq<char>)>, code: Seq<char>)
    ensures
        count_code(a + b, code) == count_code(a, code) + count_code(b, code),
    decreases b.len(),
{
    if b.len() > 0 {
        assert((a + b).drop_last() =~= a + b.drop_last());
        lemma_count_code_concat(a, b.drop_last(), code);
    } else {
        assert(a + b =~= a);
    }
}

pub proof fn lemma_count_code_single(f: (Severity, Seq<char>), code: Seq<char>)
    ensures
        count_code(seq![f], code) == if f.1 == code { 1nat } else { 0nat },
{
    reveal_with_fuel(count_code, 2);
    assert(seq![f].drop_last() =~= Seq::<(Severity, Seq<char>)>::empty());
}

/// The three-way result of one lookup: a value, a plain absence, or a
/// failure with its message. Never a value together with an error.
#[derive(Debug, Clone)]
pub enum Outcome<T> {
    Found(T),
    NotFound,
    Failed(String),
}

impl<T> Outcome<T> {
    pub open spec fn found(&self) -> bool {
        self is Found
    }

    pub open spec fn absent(&self) -> bool {
        self is NotFound
    }

    pub open spec fn failed(&self) -> bool {
        self is Failed
    }

    /// Whether the lookup went through, with or without a value.
    pub fn is_ok(&self) -> (r: bool)
        ensures
            r == !self.failed(),
    {
        !matches!(self, Outcome::Failed(_))
    }
}

/// The finding drawn from an absent record or header: one `code` of
/// `severity` where the lookup found nothing, none otherwise.
pub open spec fn absence_findings<T>(o: Outcome<T>, severity: Severity, code: Seq<char>) -> Seq<(Severity, Seq<char>)> {
    if o is NotFound {
        seq![(severity, code)]
    } else {
        Seq::empty()
    }
}

/// Draws the finding `code` of `severity` where the lookup found nothing.
pub fn analyze_absence<T>(o: &Outcome<T>, severity: Severity, code: &str) -> (r: Vec<AnalysisFinding>)
    ensures
        findings_view(r@) == absence_findings(*o, severity, code@),
{
    let mut out: Vec<AnalysisFinding> = Vec::new();
    if matches!(o, Outcome::NotFound) {
        out.push(AnalysisFinding::new(severity, code));
    }
    assert(findings_view(out@) =~= absence_findings(*o, severity, code@));
    out
}

/// Every lookup result is in exactly one of its three states.
pub proof fn lemma_outcome_exactly_one<T>(o: Outcome<T>)
    ensures
        o.found() || o.absent() || o.failed(),
        !(o.found() && o.absent()),
        !(o.found() && o.failed()),
        !(o.absent() && o.failed()),
{
}

/// The Sender Policy Framework record of a domain.
#[derive(Debug, Clone)]
pub struct SpfData {
    pub record: String,
}

/// The DMARC record of a domain and the policy read from its `p=` tag.
#[derive(Debug, Clone)]
pub struct DmarcData {
    pub record: String,
    pub policy: Option<String>,
}

/// A DKIM key record found under one selector.
#[derive(Debug, Clone)]
pub struct DkimRecord {
    pub selector: String,
    pub record: String,
}

/// What the DNS probe found, and the findings drawn from it.
#[derive(Debug, Clone)]
pub struct DnsResults {
    pub spf: Outcome<SpfData>,
    pub dmarc: Outcome<DmarcData>,
    pub dkim: Outcome<Vec<DkimRecord>>,
    pub caa: Outcome<Vec<String>>,
    pub analysis: Vec<AnalysisFinding>,
}

impl Default for DnsResults {
    fn default() -> (r: Self)
        ensures
            r.spf is NotFound,
            r.dmarc is NotFound,
            r.dkim is NotFound,
            r.caa is NotFound,
            r.analysis@.len() == 0,
    {
        DnsResults {
            spf: Outcome::NotFound,
            dmarc: Outcome::NotFound,
            dkim: Outcome::NotFound,
            caa: Outcome::NotFound,
            analysis: Vec::new(),
        }
    }
}

/// The fields of a leaf certificate that the analysis reads. Instants are
/// Unix timestamps in seconds (UTC).
#[derive(Debug, Clone)]
pub struct CertificateInfo {
    pub subject_name: String,
    pub issuer_name: String,
    pub not_before: i64,
    pub not_after: i64,
    pub days_until_expiry: i64,
}

/// A decoded certificate together with whether it is valid at scan time.
#[derive(Debug, Clone)]
pub struct SslData {
    pub is_valid: bool,
    pub certificate_info: CertificateInfo,
}

/// What the TLS probe found. `Found` carries the certificate, `NotFound`
/// means the handshake succeeded but the peer presented none.
#[derive(Debug, Clone)]
pub struct SslResults {
    pub scan: Outcome<SslData>,
    pub analysis: Vec<AnalysisFinding>,
}

impl Default for SslResults {
    fn default() -> (r: Self)
        ensures
            r.scan is NotFound,
            r.analysis@.len() == 0,
    {
        SslResults { scan: Outcome::NotFound, analysis: Vec::new() }
    }
}

/// The text of one HTTP header.
#[derive(Debug, Clone)]
pub struct HeaderData {
    pub value: String,
}

/// What the header probe found. `error` holds the request failure, if any.
#[derive(Debug, Clone)]
pub struct HeadersResults {
    pub hsts: Outcome<HeaderData>,
    pub csp: Outcome<HeaderData>,
    pub x_frame_options: Outcome<HeaderData>,
    pub x_content_type_options: Outcome<HeaderData>,
    pub error: Option<String>,
    pub analysis: Vec<AnalysisFinding>,
}

impl Default for HeadersResults {
    fn default() -> (r: Self)
        ensures
            r.hsts is NotFound,
            r.csp is NotFound,
            r.x_frame_options is NotFound,
            r.x_content_type_options is NotFound,
            r.error is None,
            r.analysis@.len() == 0,
    {
        HeadersResults {
            hsts: Outcome::NotFound,
            csp: Outcome::NotFound,
            x_frame_options: Outcome::NotFound,
            x_content_type_options: Outcome::NotFound,
            error: None,
            analysis: Vec::new(),
        }
    }
}

/// A technology detected on the site.
#[derive(Debug, Clone)]
pub struct Technology {
    pub name: String,
    pub category: String,
    pub version: Option<String>,
}

/// The technology inventory, or the reason it could not be taken.
#[derive(Debug)]
pub struct FingerprintResults {
    pub technologies: Result<Vec<Technology>, String>,
}

impl Default for FingerprintResults {
    fn default() -> (r: Self)
        ensures
            r.technologies matches Ok(v) && v@.len() == 0,
    {
        FingerprintResults { technologies: Ok(Vec::new()) }
    }
}

/// The merged outcome of one scan.
#[derive(Debug)]
pub struct ScanReport {
    pub dns_results: DnsResults,
    pub ssl_results: SslResults,
    pub headers_results: HeadersResults,
    pub fingerprint_results: FingerprintResults,
}

impl Default for ScanReport {
    fn default() -> (r: Self)
        ensures
            r.dns_results.analysis@.len() == 0,
            r.ssl_results.analysis@.len() == 0,
            r.headers_results.analysis@.len() == 0,
            r.headers_results.error is None,
    {
        ScanReport {
            dns_results: DnsResults::default(),
            ssl_results: SslResults::default(),
            headers_results: HeadersResults::default(),
            fingerprint_results: FingerprintResults::default(),
        }
    }
}

} // verus!
