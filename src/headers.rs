//! Header probe logic: finding the four security headers in a response and
//! the findings drawn from their absence. The request is made at the edge.
use vstd::prelude::*;
use vstd::string::StringExecFns;
use crate::models::{
    AnalysisFinding, HeaderData, HeadersResults, Outcome, Severity, absence_findings,
    analyze_absence, findings_view,
};
use crate::text::{eq_ignore_ascii_case, same_ignoring_ascii_case};

verus! {

/// One header of a response. `value` is `None` where the raw value is not
/// valid text.
#[derive(Debug, Clone)]
pub struct HeaderEntry {
    pub name: String,
    pub value: Option<String>,
}

/// The value of the first header at or after `i` named `name` (ignoring
/// ASCII case): `None` where there is none, `Some(None)` where its value is
/// not text.
pub open spec fn header_lookup_from(hs: Seq<HeaderEntry>, name: Seq<char>, i: int) -> Option<Option<Seq<char>>>
    decreases hs.len() - i,
{
    if i < 0 || i >= hs.len() {
        None
    } else if same_ignoring_ascii_case(hs[i].name@, name) {
        Some(
            match hs[i].value {
                Some(v) => Some(v@),
                None => None,
            },
        )
    } else {
        header_lookup_from(hs, name, i + 1)
    }
}

pub open spec fn header_lookup(hs: Seq<HeaderEntry>, name: Seq<char>) -> Option<Option<Seq<char>>> {
    header_lookup_from(hs, name, 0)
}

/// `o` is the outcome for header `name` in `hs`.
pub open spec fn header_outcome(hs: Seq<HeaderEntry>, name: Seq<char>, o: Outcome<HeaderData>) -> bool {
    match header_lookup(hs, name) {
        None => o is NotFound,
        Some(Some(v)) => o matches Outcome::Found(d) && d.value@ == v,
        Some(None) => o matches Outcome::Found(d) && d.value@ == "[Invalid UTF-8]"@,
    }
}

pub open spec fn lookup_view(o: Option<Option<String>>) -> Option<Option<Seq<char>>> {
    match o {
        None => None,
        Some(None) => Some(None),
        Some(Some(v)) => Some(Some(v@)),
    }
}

/// The value of the first header named `name`, ignoring ASCII case:
/// `None` where there is none, `Some(None)` where its value is not text.
pub fn find_header(headers: &Vec<HeaderEntry>, name: &str) -> (r: Option<Option<String>>)
    ensures
        lookup_view(r) == header_lookup(headers@, name@),
{
    let mut i: usize = 0;
    while i < headers.len()
        invariant
            i <= headers@.len(),
            header_lookup(headers@, name@) == header_lookup_from(headers@, name@, i as int),
        decreases headers.len() - i,
    {
        if eq_ignore_ascii_case(headers[i].name.as_str(), name) {
            return Some(headers[i].value.clone());
        }
        i = i + 1;
    }
    None
}

/// Looks up header `name`, ignoring ASCII case. A value that is not valid
/// text is still reported present, with a placeholder.
pub fn check_header(headers: &Vec<HeaderEntry>, name: &str) -> (r: Outcome<HeaderData>)
    ensures
        header_outcome(headers@, name@, r),
{
    match find_header(headers, name) {
        None => Outcome::NotFound,
        Some(Some(v)) => Outcome::Found(HeaderData { value: v }),
        Some(None) => Outcome::Found(HeaderData { value: String::from_str("[Invalid UTF-8]") }),
    }
}

/// The findings that the header rules draw: a request failure draws only
/// `HEADERS_REQUEST_FAILED`; otherwise each missing header draws its own.
pub open spec fn headers_findings(r: HeadersResults) -> Seq<(Severity, Seq<char>)> {
    if r.error is Some {
        seq![(Severity::Critical, "HEADERS_REQUEST_FAILED"@)]
    } else {
        absence_findings(r.hsts, Severity::Warning, "HEADERS_HSTS_MISSING"@)
            + absence_findings(r.csp, Severity::Warning, "HEADERS_CSP_MISSING"@)
            + absence_findings(r.x_frame_options, Severity::Warning, "HEADERS_X_FRAME_OPTIONS_MISSING"@)
            + absence_findings(r.x_content_type_options, Severity::Info, "HEADERS_X_CONTENT_TYPE_OPTIONS_MISSING"@)
    }
}

/// Applies the header rules.
pub fn analyze_headers_results(results: &HeadersResults) -> (r: Vec<AnalysisFinding>)
    ensures
        findings_view(r@) == headers_findings(*results),
{
    if results.error.is_some() {
        let mut out: Vec<AnalysisFinding> = Vec::new();
        out.push(AnalysisFinding::new(Severity::Critical, "HEADERS_REQUEST_FAILED"));
        assert(findings_view(out@) =~= headers_findings(*results));
        return out;
    }
    let mut out = analyze_absence(&results.hsts, Severity::Warning, "HEADERS_HSTS_MISSING");
    let mut b = analyze_absence(&results.csp, Severity::Warning, "HEADERS_CSP_MISSING");
    let mut c = analyze_absence(&results.x_frame_options, Severity::Warning, "HEADERS_X_FRAME_OPTIONS_MISSING");
    let mut d = analyze_absence(
        &results.x_content_type_options,
        Severity::Info,
        "HEADERS_X_CONTENT_TYPE_OPTIONS_MISSING",
    );
    let ghost (va, vb, vc, vd) = (out@, b@, c@, d@);
    out.append(&mut b);
    out.append(&mut c);
    out.append(&mut d);
    assert(findings_view(va + vb + vc + vd) =~= findings_view(va) + findings_view(vb) + findings_view(vc)
        + findings_view(vd));
    out
}

/// Everything the header probe does once the response is back (`Ok` with
/// its headers) or the request has failed (`Err` with the reason).
pub fn headers_results_from(response: Result<Vec<HeaderEntry>, String>) -> (r: HeadersResults)
    ensures
        match response {
            Err(m) => r.error matches Some(e) && e@ == m@ && r.hsts is NotFound && r.csp is NotFound
                && r.x_frame_options is NotFound && r.x_content_type_options is NotFound,
            Ok(hs) => r.error is None && header_outcome(hs@, "strict-transport-security"@, r.hsts)
                && header_outcome(hs@, "content-security-policy"@, r.csp)
                && header_outcome(hs@, "x-frame-options"@, r.x_frame_options)
                && header_outcome(hs@, "x-content-type-options"@, r.x_content_type_options),
        },
        findings_view(r.analysis@) == headers_findings(r),
{
    let mut r = match response {
        Err(m) => HeadersResults {
            hsts: Outcome::NotFound,
            csp: Outcome::NotFound,
            x_frame_options: Outcome::NotFound,
            x_content_type_options: Outcome::NotFound,
            error: Some(m),
            analysis: Vec::new(),
        },
        Ok(hs) => HeadersResults {
            hsts: check_header(&hs, "strict-transport-security"),
            csp: check_header(&hs, "content-security-policy"),
            x_frame_options: check_header(&hs, "x-frame-options"),
            x_content_type_options: check_header(&hs, "x-content-type-options"),
            error: None,
            analysis: Vec::new(),
        },
    };
    r.analysis = analyze_headers_results(&r);
    r
}

} // verus!
