//! Scoring: reduces a report's findings to a 0-100 score, counts by
//! severity, and per-probe pass flags.
use vstd::prelude::*;
use crate::models::{AnalysisFinding, ScanReport, Severity, findings_view};

verus! {

/// The per-scan summary shown to the user.
///
/// A probe's check counts as passed when none of its lookups failed (a
/// record or header that is merely absent does not fail the check; its
/// finding is still counted in the score). For the header probe a request
/// failure also fails the check.
#[derive(Debug)]
pub struct ScanSummary {
    pub score: u8,
    pub critical_issues: usize,
    pub warning_issues: usize,
    pub dns_check_passed: bool,
    pub ssl_check_passed: bool,
    pub headers_check_passed: bool,
}

impl Default for ScanSummary {
    fn default() -> (r: Self)
        ensures
            empty_summary(r),
    {
        ScanSummary {
            score: 0,
            critical_issues: 0,
            warning_issues: 0,
            dns_check_passed: false,
            ssl_check_passed: false,
            headers_check_passed: false,
        }
    }
}

/// `100 - 15 * criticals - 5 * warnings`, clamped to `[0, 100]`.
pub open spec fn score_spec(criticals: int, warnings: int) -> int {
    let raw = 100 - 15 * criticals - 5 * warnings;
    if raw < 0 {
        0
    } else if raw > 100 {
        100
    } else {
        raw
    }
}

/// The risk score for the given numbers of critical and warning findings.
pub fn compute_score(criticals: usize, warnings: usize) -> (r: u8)
    ensures
        r as int == score_spec(criticals as int, warnings as int),
        r <= 100,
{
    let penalty: u128 = criticals as u128 * 15 + warnings as u128 * 5;
    if penalty >= 100 {
        0
    } else {
        (100 - penalty) as u8
    }
}

/// How many findings of `s` have severity `sev`.
pub open spec fn count_severity(s: Seq<(Severity, Seq<char>)>, sev: Severity) -> nat
    decreases s.len(),
{
    if s.len() == 0 {
        0
    } else {
        count_severity(s.drop_last(), sev) + if s.last().0 == sev {
            1nat
        } else {
            0nat
        }
    }
}

/// How many findings of `findings` have severity `sev`.
pub fn count_by_severity(findings: &Vec<AnalysisFinding>, sev: Severity) -> (r: usize)
    ensures
        r == count_severity(findings_view(findings@), sev),
{
    let ghost fv = findings_view(findings@);
    let mut n: usize = 0;
    let mut i: usize = 0;
    while i < findings.len()
        invariant
            i <= findings@.len(),
            fv == findings_view(findings@),
            n == count_severity(fv.take(i as int), sev),
            n <= i,
        decreases findings.len() - i,
    {
        assert(fv.take(i + 1).drop_last() =~= fv.take(i as int));
        if findings[i].severity == sev {
            n = n + 1;
        }
        i = i + 1;
    }
    assert(fv.take(findings@.len() as int) =~= fv);
    n
}

fn copy_finding(f: &AnalysisFinding) -> (r: AnalysisFinding)
    ensures
        r.severity == f.severity,
        r.code@ == f.code@,
{
    AnalysisFinding { severity: f.severity, code: f.code.clone() }
}

fn append_copies(out: &mut Vec<AnalysisFinding>, from: &Vec<AnalysisFinding>)
    ensures
        findings_view(final(out)@) == findings_view(old(out)@) + findings_view(from@),
{
    let mut i: usize = 0;
    while i < from.len()
        invariant
            i <= from@.len(),
            findings_view(out@) == findings_view(old(out)@) + findings_view(from@.take(i as int)),
        decreases from.len() - i,
    {
        let ghost before = out@;
        out.push(copy_finding(&from[i]));
        assert(findings_view(out@) =~= findings_view(before).push((from@[i as int].severity, from@[i as int].code@)));
        assert(findings_view(from@.take(i + 1)) =~= findings_view(from@.take(i as int)).push(
            (from@[i as int].severity, from@[i as int].code@),
        ));
        i = i + 1;
    }
    assert(from@.take(from@.len() as int) =~= from@);
}

/// The report's findings: the DNS ones, then TLS, then headers.
pub open spec fn report_findings(r: ScanReport) -> Seq<(Severity, Seq<char>)> {
    findings_view(r.dns_results.analysis@) + findings_view(r.ssl_results.analysis@) + findings_view(
        r.headers_results.analysis@,
    )
}

/// Gathers the report's findings into one list.
pub fn all_findings(report: &ScanReport) -> (r: Vec<AnalysisFinding>)
    ensures
        findings_view(r@) == report_findings(*report),
{
    let mut out: Vec<AnalysisFinding> = Vec::new();
    assert(findings_view(out@) =~= Seq::<(Severity, Seq<char>)>::empty());
    append_copies(&mut out, &report.dns_results.analysis);
    append_copies(&mut out, &report.ssl_results.analysis);
    append_copies(&mut out, &report.headers_results.analysis);
    assert(findings_view(out@) =~= report_findings(*report));
    out
}

/// No DNS lookup failed.
pub open spec fn dns_passed(r: ScanReport) -> bool {
    !r.dns_results.spf.failed() && !r.dns_results.dmarc.failed() && !r.dns_results.dkim.failed()
        && !r.dns_results.caa.failed()
}

/// The request went through and no header lookup failed.
pub open spec fn headers_passed(r: ScanReport) -> bool {
    r.headers_results.error is None && !r.headers_results.hsts.failed() && !r.headers_results.csp.failed()
        && !r.headers_results.x_frame_options.failed() && !r.headers_results.x_content_type_options.failed()
}

/// `s` is the summary of `report`: the score over all findings, the
/// counts of critical and warning findings, and whether each probe's
/// lookups went through.
pub open spec fn summary_of(s: ScanSummary, report: ScanReport) -> bool {
    &&& s.critical_issues == count_severity(report_findings(report), Severity::Critical)
    &&& s.warning_issues == count_severity(report_findings(report), Severity::Warning)
    &&& s.score as int == score_spec(s.critical_issues as int, s.warning_issues as int)
    &&& s.dns_check_passed == dns_passed(report)
    &&& s.ssl_check_passed == !report.ssl_results.scan.failed()
    &&& s.headers_check_passed == headers_passed(report)
}

/// The summary before any scan: everything zero or failed.
pub open spec fn empty_summary(s: ScanSummary) -> bool {
    &&& s.score == 0
    &&& s.critical_issues == 0
    &&& s.warning_issues == 0
    &&& !s.dns_check_passed
    &&& !s.ssl_check_passed
    &&& !s.headers_check_passed
}

/// Summarises a report.
pub fn summarize(report: &ScanReport) -> (r: ScanSummary)
    ensures
        summary_of(r, *report),
{
    let all = all_findings(report);
    let criticals = count_by_severity(&all, Severity::Critical);
    let warnings = count_by_severity(&all, Severity::Warning);
    let d = &report.dns_results;
    let h = &report.headers_results;
    ScanSummary {
        score: compute_score(criticals, warnings),
        critical_issues: criticals,
        warning_issues: warnings,
        dns_check_passed: d.spf.is_ok() && d.dmarc.is_ok() && d.dkim.is_ok() && d.caa.is_ok(),
        ssl_check_passed: report.ssl_results.scan.is_ok(),
        headers_check_passed: h.error.is_none() && h.hsts.is_ok() && h.csp.is_ok() && h.x_frame_options.is_ok()
            && h.x_content_type_options.is_ok(),
    }
}

/// The verbal rating of a score.
pub fn score_rating(score: u8) -> (r: &'static str)
    ensures
        90 <= score <= 100 ==> r@ == "Excellent"@,
        75 <= score <= 89 ==> r@ == "Good"@,
        50 <= score <= 74 ==> r@ == "Needs Improvement"@,
        (score < 50 || score > 100) ==> r@ == "Poor"@,
{
    if 90 <= score && score <= 100 {
        "Excellent"
    } else if 75 <= score && score <= 89 {
        "Good"
    } else if 50 <= score && score <= 74 {
        "Needs Improvement"
    } else {
        "Poor"
    }
}

/// More critical or warning findings never raise the score.
pub proof fn lemma_score_monotone(c1: nat, w1: nat, c2: nat, w2: nat)
    requires
        c1 <= c2,
        w1 <= w2,
    ensures
        score_spec(c2 as int, w2 as int) <= score_spec(c1 as int, w1 as int),
{
}

/// The score never leaves `[0, 100]`, and each critical finding weighs
/// 15 and each warning 5 until the score reaches 0.
pub proof fn lemma_score_bounds(criticals: nat, warnings: nat)
    ensures
        0 <= score_spec(criticals as int, warnings as int) <= 100,
        15 * criticals + 5 * warnings <= 100 ==> score_spec(criticals as int, warnings as int) == 100 - 15
            * criticals - 5 * warnings,
        15 * criticals + 5 * warnings >= 100 ==> score_spec(criticals as int, warnings as int) == 0,
{
}

} // verus!
