//! DNS probe logic: the names to query, what the answers mean, and the
//! findings drawn from them. The lookups themselves happen at the edge; an
//! answer is handed in as `Ok(records)` or `Err(message)`.
use vstd::prelude::*;
use vstd::string::{StrSliceExecFns, StringExecFns};
use crate::models::{
    AnalysisFinding, DkimRecord, absence_findings, analyze_absence, DmarcData, DnsResults, Outcome, Severity, SpfData, count_code,
    findings_view, lemma_count_code_concat, lemma_count_code_single,
};
use crate::text::{
    back_space, back_spaces, find_char, is_prefix, is_suffix, next_char, same_text, skip_space,
    skip_spaces, starts_with, ends_with, lemma_back_space_bounds, lemma_next_char_bounds,
    lemma_skip_space_bounds,
};

verus! {

/// The records of one TXT or CAA answer, or `None` where the lookup failed.
pub open spec fn answer_view(a: Result<Vec<String>, String>) -> Option<Seq<Seq<char>>> {
    match a {
        Ok(v) => Some(v@.map_values(|s: String| s@)),
        Err(_) => None,
    }
}

/// The message recorded for a failed lookup.
pub open spec fn dns_error_message(e: Seq<char>) -> Seq<char> {
    "DNS Error: "@ + e
}

/// The domain whose records are queried: `target` without a leading `www.`.
pub open spec fn root_domain_spec(target: Seq<char>) -> Seq<char> {
    if is_prefix("www."@, target) {
        target.subrange(4, target.len() as int)
    } else {
        target
    }
}

/// Drops a leading `www.`: mail and certificate-authority records live on
/// the apex domain.
pub fn root_domain(target: &str) -> (r: String)
    ensures
        r@ == root_domain_spec(target@),
{
    proof {
        reveal_strlit("www.");
    }
    if starts_with(target, "www.") {
        let n = target.unicode_len();
        String::from_str(target.substring_char(4, n))
    } else {
        String::from_str(target)
    }
}

/// The name that holds the DMARC record of `domain`.
pub fn dmarc_query_name(domain: &str) -> (r: String)
    ensures
        r@ == "_dmarc."@ + domain@,
{
    let mut r = String::from_str("_dmarc.");
    r.append(domain);
    r
}

/// The name that holds the DKIM key of `domain` under `selector`.
pub fn dkim_query_name(selector: &str, domain: &str) -> (r: String)
    ensures
        r@ == selector@ + "._domainkey."@ + domain@,
{
    let mut r = String::from_str(selector);
    r.append("._domainkey.");
    r.append(domain);
    r
}

/// The DKIM selectors tried when none is known.
pub fn dkim_selectors() -> (r: Vec<String>)
    ensures
        r@.len() == 5,
        r@[0]@ == "google"@,
        r@[1]@ == "selector1"@,
        r@[2]@ == "selector2"@,
        r@[3]@ == "default"@,
        r@[4]@ == "dkim"@,
{
    let mut r: Vec<String> = Vec::new();
    r.push(String::from_str("google"));
    r.push(String::from_str("selector1"));
    r.push(String::from_str("selector2"));
    r.push(String::from_str("default"));
    r.push(String::from_str("dkim"));
    r
}

fn dns_error(e: &String) -> (r: String)
    ensures
        r@ == dns_error_message(e@),
{
    let mut r = String::from_str("DNS Error: ");
    r.append(e.as_str());
    r
}

/// `recs[i]` is the first record that opens with `v=spf1`.
pub open spec fn first_spf_at(recs: Seq<Seq<char>>, i: int) -> bool {
    0 <= i < recs.len() && is_prefix("v=spf1"@, recs[i])
        && forall|j: int| 0 <= j < i ==> !is_prefix("v=spf1"@, #[trigger] recs[j])
}

/// `rec` is the first record of `recs` that opens with `v=spf1`.
pub open spec fn is_first_spf(recs: Seq<Seq<char>>, rec: Seq<char>) -> bool {
    exists|i: int| #[trigger] first_spf_at(recs, i) && rec == recs[i]
}

/// `o` is what an SPF lookup that answered `a` yields: the first record
/// opening with `v=spf1`.
pub open spec fn spf_outcome(a: Option<Seq<Seq<char>>>, err: Seq<char>, o: Outcome<SpfData>) -> bool {
    match a {
        None => o matches Outcome::Failed(m) && m@ == dns_error_message(err),
        Some(recs) => match o {
            Outcome::Found(d) => is_first_spf(recs, d.record@),
            Outcome::NotFound => forall|j: int| 0 <= j < recs.len() ==> !is_prefix("v=spf1"@, #[trigger] recs[j]),
            Outcome::Failed(_) => false,
        },
    }
}

/// The message of a failed answer; empty for one that went through.
pub open spec fn err_text(a: Result<Vec<String>, String>) -> Seq<char> {
    match a {
        Ok(_) => Seq::empty(),
        Err(e) => e@,
    }
}

/// Reads the SPF record out of the TXT answer of the domain.
pub fn spf_from_txt(answer: Result<Vec<String>, String>) -> (r: Outcome<SpfData>)
    ensures
        spf_outcome(answer_view(answer), err_text(answer), r),
{
    match answer {
        Err(e) => Outcome::Failed(dns_error(&e)),
        Ok(recs) => {
            let ghost v = recs@.map_values(|s: String| s@);
            assert(answer_view(answer) == Some(v));
            let mut i: usize = 0;
            while i < recs.len()
                invariant
                    i <= recs@.len(),
                    v == recs@.map_values(|s: String| s@),
                    answer_view(answer) == Some(v),
                    err_text(answer) == Seq::<char>::empty(),
                    forall|j: int| 0 <= j < i ==> !is_prefix("v=spf1"@, #[trigger] v[j]),
                decreases recs.len() - i,
            {
                if starts_with(recs[i].as_str(), "v=spf1") {
                    let d = SpfData { record: recs[i].clone() };
                    assert(v[i as int] == recs@[i as int]@);
                    assert(is_prefix("v=spf1"@, v[i as int]));
                    assert(d.record@ == v[i as int]);
                    assert(first_spf_at(v, i as int));
                    assert(is_first_spf(v, d.record@));
                    return Outcome::Found(d);
                }
                i = i + 1;
            }
            Outcome::NotFound
        },
    }
}

/// The value of the first `p=` tag of a DMARC record: the record is cut at
/// each `;`, each piece is trimmed, and of the first piece that opens with
/// `p=` the text after that `=` up to the next `=` is taken.
pub open spec fn dmarc_policy(s: Seq<char>) -> Option<Seq<char>> {
    dmarc_policy_from(s, 0)
}

pub open spec fn dmarc_policy_from(s: Seq<char>, start: int) -> Option<Seq<char>>
    decreases s.len() - start,
{
    if start < 0 || start > s.len() {
        None
    } else {
        let end = next_char(s, start, ';', s.len() as int);
        let a = skip_space(s, start, end);
        let b = back_space(s, a, end);
        if b - a >= 2 && s[a] == 'p' && s[a + 1] == '=' {
            Some(s.subrange(a + 2, next_char(s, a + 2, '=', b)))
        } else if end < s.len() {
            proof {
                lemma_next_char_bounds(s, start, ';', s.len() as int);
            }
            dmarc_policy_from(s, end + 1)
        } else {
            None
        }
    }
}

/// Extracts the `p=` policy of a DMARC record.
pub fn parse_dmarc_policy(record: &str) -> (r: Option<String>)
    ensures
        r is None <==> dmarc_policy(record@) is None,
        r matches Some(p) ==> dmarc_policy(record@) == Some(p@),
{
    let n = record.unicode_len();
    let mut start: usize = 0;
    while start <= n
        invariant
            n == record@.len(),
            dmarc_policy(record@) == dmarc_policy_from(record@, start as int),
        decreases n + 1 - start,
    {
        let end = find_char(record, start, ';', n);
        proof {
            lemma_next_char_bounds(record@, start as int, ';', n as int);
        }
        let a = skip_spaces(record, start, end);
        proof {
            lemma_skip_space_bounds(record@, start as int, end as int);
        }
        let b = back_spaces(record, a, end);
        proof {
            lemma_back_space_bounds(record@, a as int, end as int);
        }
        if b - a >= 2 && record.get_char(a) == 'p' && record.get_char(a + 1) == '=' {
            let e = find_char(record, a + 2, '=', b);
            proof {
                lemma_next_char_bounds(record@, a + 2, '=', b as int);
            }
            return Some(String::from_str(record.substring_char(a + 2, e)));
        }
        if end >= n {
            return None;
        }
        start = end + 1;
    }
    None
}

/// An SPF or DMARC lookup ends in exactly one state, failed exactly when
/// the query failed, and found exactly when a record qualifies.
pub proof fn lemma_lookup_states(
    a: Option<Seq<Seq<char>>>,
    err: Seq<char>,
    spf: Outcome<SpfData>,
    dmarc: Outcome<DmarcData>,
)
    requires
        spf_outcome(a, err, spf),
        dmarc_outcome(a, err, dmarc),
    ensures
        spf.failed() <==> a is None,
        dmarc.failed() <==> a is None,
        a matches Some(recs) ==> (spf.found() <==> exists|i: int|
            0 <= i < recs.len() && is_prefix("v=spf1"@, #[trigger] recs[i])),
        a matches Some(recs) ==> (dmarc.found() <==> recs.len() > 0),
        spf.found() as int + spf.absent() as int + spf.failed() as int == 1,
        dmarc.found() as int + dmarc.absent() as int + dmarc.failed() as int == 1,
{
    if let Some(recs) = a {
        if spf.found() {
            let d = spf->Found_0;
            let i = choose|i: int| #[trigger] first_spf_at(recs, i) && d.record@ == recs[i];
            assert(is_prefix("v=spf1"@, recs[i]));
        }
    }
}

/// A DMARC record in which `p=` never occurs has no policy.
pub proof fn lemma_no_policy_tag(s: Seq<char>)
    requires
        forall|i: int| 0 <= i < s.len() - 1 ==> !(#[trigger] s[i] == 'p' && s[i + 1] == '='),
    ensures
        dmarc_policy(s) is None,
{
    lemma_no_policy_tag_from(s, 0);
}

proof fn lemma_no_policy_tag_from(s: Seq<char>, start: int)
    requires
        0 <= start,
        forall|i: int| 0 <= i < s.len() - 1 ==> !(#[trigger] s[i] == 'p' && s[i + 1] == '='),
    ensures
        dmarc_policy_from(s, start) is None,
    decreases s.len() - start,
{
    if start <= s.len() {
        let end = next_char(s, start, ';', s.len() as int);
        lemma_next_char_bounds(s, start, ';', s.len() as int);
        let a = skip_space(s, start, end);
        lemma_skip_space_bounds(s, start, end);
        let b = back_space(s, a, end);
        lemma_back_space_bounds(s, a, end);
        if b - a >= 2 {
            assert(!(s[a] == 'p' && s[a + 1] == '='));
        }
        if end < s.len() {
            lemma_no_policy_tag_from(s, end + 1);
        }
    }
}

/// `o` is what a DMARC lookup that answered `a` yields: the first record,
/// with its policy.
pub open spec fn dmarc_outcome(a: Option<Seq<Seq<char>>>, err: Seq<char>, o: Outcome<DmarcData>) -> bool {
    match a {
        None => o matches Outcome::Failed(m) && m@ == dns_error_message(err),
        Some(recs) => if recs.len() == 0 {
            o is NotFound
        } else {
            o matches Outcome::Found(d) && d.record@ == recs[0] && match d.policy {
                Some(p) => dmarc_policy(recs[0]) == Some(p@),
                None => dmarc_policy(recs[0]) is None,
            }
        },
    }
}

/// Reads the DMARC record out of the TXT answer of `_dmarc.<domain>`.
pub fn dmarc_from_txt(answer: Result<Vec<String>, String>) -> (r: Outcome<DmarcData>)
    ensures
        dmarc_outcome(answer_view(answer), err_text(answer), r),
{
    match answer {
        Err(e) => Outcome::Failed(dns_error(&e)),
        Ok(recs) => {
            if recs.len() == 0 {
                Outcome::NotFound
            } else {
                let record = recs[0].clone();
                let policy = parse_dmarc_policy(record.as_str());
                Outcome::Found(DmarcData { record, policy })
            }
        },
    }
}

/// The DKIM answers seen as (selector, records-or-failure) pairs.
pub open spec fn dkim_answers_view(a: Seq<(String, Result<Vec<String>, String>)>) -> Seq<
    (Seq<char>, Option<Seq<Seq<char>>>),
> {
    a.map_values(|p: (String, Result<Vec<String>, String>)| (p.0@, answer_view(p.1)))
}

/// DKIM records seen as (selector, record) pairs.
pub open spec fn dkim_view(v: Seq<DkimRecord>) -> Seq<(Seq<char>, Seq<char>)> {
    v.map_values(|d: DkimRecord| (d.selector@, d.record@))
}

/// The records of one selector's answer that open with `v=DKIM1`, in order.
pub open spec fn dkim_keep(sel: Seq<char>, recs: Seq<Seq<char>>) -> Seq<(Seq<char>, Seq<char>)>
    decreases recs.len(),
{
    if recs.len() == 0 {
        Seq::empty()
    } else {
        let rest = dkim_keep(sel, recs.drop_last());
        if is_prefix("v=DKIM1"@, recs.last()) {
            rest.push((sel, recs.last()))
        } else {
            rest
        }
    }
}

/// The DKIM records of all answers, selector by selector; a failed lookup
/// contributes nothing.
pub open spec fn dkim_all(a: Seq<(Seq<char>, Option<Seq<Seq<char>>>)>) -> Seq<(Seq<char>, Seq<char>)>
    decreases a.len(),
{
    if a.len() == 0 {
        Seq::empty()
    } else {
        let rest = dkim_all(a.drop_last());
        match a.last().1 {
            Some(recs) => rest + dkim_keep(a.last().0, recs),
            None => rest,
        }
    }
}

/// Gathers the DKIM records out of the TXT answers of
/// `<selector>._domainkey.<domain>`, one answer per selector. A selector
/// without a record, or whose lookup failed, is skipped.
pub fn dkim_from_answers(answers: &Vec<(String, Result<Vec<String>, String>)>) -> (r: Outcome<Vec<DkimRecord>>)
    ensures
        r is NotFound <==> dkim_all(dkim_answers_view(answers@)).len() == 0,
        r matches Outcome::Found(v) ==> dkim_view(v@) == dkim_all(dkim_answers_view(answers@)),
        !(r is Failed),
{
    let ghost av = dkim_answers_view(answers@);
    let mut found: Vec<DkimRecord> = Vec::new();
    let mut i: usize = 0;
    while i < answers.len()
        invariant
            i <= answers@.len(),
            av == dkim_answers_view(answers@),
            dkim_view(found@) == dkim_all(av.take(i as int)),
        decreases answers.len() - i,
    {
        let entry = &answers[i];
        assert(av.take(i + 1).drop_last() =~= av.take(i as int));
        match &entry.1 {
            Ok(recs) => {
                let ghost base = found@;
                let ghost sel = entry.0@;
                let ghost rv = recs@.map_values(|s: String| s@);
                assert(av[i as int] == (sel, Some(rv)));
                let mut j: usize = 0;
                while j < recs.len()
                    invariant
                        j <= recs@.len(),
                        rv == recs@.map_values(|s: String| s@),
                        sel == entry.0@,
                        dkim_view(found@) == dkim_view(base) + dkim_keep(sel, rv.take(j as int)),
                    decreases recs.len() - j,
                {
                    assert(rv.take(j + 1).drop_last() =~= rv.take(j as int));
                    if starts_with(recs[j].as_str(), "v=DKIM1") {
                        let ghost before = found@;
                        found.push(DkimRecord { selector: entry.0.clone(), record: recs[j].clone() });
                        assert(dkim_view(found@) =~= dkim_view(before).push((sel, rv[j as int])));
                    }
                    j = j + 1;
                }
                assert(rv.take(recs@.len() as int) =~= rv);
            },
            Err(_) => {
                assert(av[i as int].1 is None);
            },
        }
        i = i + 1;
    }
    assert(av.take(answers@.len() as int) =~= av);
    if found.len() == 0 {
        Outcome::NotFound
    } else {
        Outcome::Found(found)
    }
}

/// Reads the CAA records out of the CAA answer of the domain.
pub fn caa_from_answer(answer: Result<Vec<String>, String>) -> (r: Outcome<Vec<String>>)
    ensures
        match answer_view(answer) {
            None => r matches Outcome::Failed(m) && m@ == dns_error_message(err_text(answer)),
            Some(recs) => if recs.len() == 0 {
                r is NotFound
            } else {
                r matches Outcome::Found(v) && v@.map_values(|s: String| s@) == recs
            },
        },
{
    match answer {
        Err(e) => Outcome::Failed(dns_error(&e)),
        Ok(recs) => {
            if recs.len() == 0 {
                Outcome::NotFound
            } else {
                Outcome::Found(recs)
            }
        },
    }
}

/// The finding drawn from the DMARC lookup.
pub open spec fn dmarc_findings(o: Outcome<DmarcData>) -> Seq<(Severity, Seq<char>)> {
    match o {
        Outcome::Found(d) => if d.policy matches Some(p) && p@ == "none"@ {
            seq![(Severity::Warning, "DNS_DMARC_POLICY_NONE"@)]
        } else {
            Seq::empty()
        },
        Outcome::NotFound => seq![(Severity::Critical, "DNS_DMARC_MISSING"@)],
        Outcome::Failed(_) => Seq::empty(),
    }
}

/// The finding drawn from the SPF lookup.
pub open spec fn spf_findings(o: Outcome<SpfData>) -> Seq<(Severity, Seq<char>)> {
    match o {
        Outcome::Found(d) => if is_suffix("~all"@, d.record@) {
            seq![(Severity::Info, "DNS_SPF_POLICY_SOFTFAIL"@)]
        } else if is_suffix("?all"@, d.record@) {
            seq![(Severity::Info, "DNS_SPF_POLICY_NEUTRAL"@)]
        } else {
            Seq::empty()
        },
        Outcome::NotFound => seq![(Severity::Warning, "DNS_SPF_MISSING"@)],
        Outcome::Failed(_) => Seq::empty(),
    }
}

/// The findings that the DNS rules draw from the lookup results, in order:
/// DMARC, SPF, DKIM, CAA. A failed lookup draws none.
pub open spec fn dns_findings(r: DnsResults) -> Seq<(Severity, Seq<char>)> {
    dmarc_findings(r.dmarc) + spf_findings(r.spf) + absence_findings(r.dkim, Severity::Info, "DNS_DKIM_MISSING"@)
        + absence_findings(r.caa, Severity::Info, "DNS_CAA_MISSING"@)
}

fn analyze_dmarc(o: &Outcome<DmarcData>) -> (r: Vec<AnalysisFinding>)
    ensures
        findings_view(r@) == dmarc_findings(*o),
{
    let mut out: Vec<AnalysisFinding> = Vec::new();
    match o {
        Outcome::Found(d) => {
            if let Some(p) = &d.policy {
                if same_text(p.as_str(), "none") {
                    out.push(AnalysisFinding::new(Severity::Warning, "DNS_DMARC_POLICY_NONE"));
                }
            }
        },
        Outcome::NotFound => {
            out.push(AnalysisFinding::new(Severity::Critical, "DNS_DMARC_MISSING"));
        },
        Outcome::Failed(_) => {},
    }
    assert(findings_view(out@) =~= dmarc_findings(*o));
    out
}

fn analyze_spf(o: &Outcome<SpfData>) -> (r: Vec<AnalysisFinding>)
    ensures
        findings_view(r@) == spf_findings(*o),
{
    let mut out: Vec<AnalysisFinding> = Vec::new();
    match o {
        Outcome::Found(d) => {
            if ends_with(d.record.as_str(), "~all") {
                out.push(AnalysisFinding::new(Severity::Info, "DNS_SPF_POLICY_SOFTFAIL"));
            } else if ends_with(d.record.as_str(), "?all") {
                out.push(AnalysisFinding::new(Severity::Info, "DNS_SPF_POLICY_NEUTRAL"));
            }
        },
        Outcome::NotFound => {
            out.push(AnalysisFinding::new(Severity::Warning, "DNS_SPF_MISSING"));
        },
        Outcome::Failed(_) => {},
    }
    assert(findings_view(out@) =~= spf_findings(*o));
    out
}

/// Applies the DNS rules to the lookup results.
pub fn analyze_dns_results(results: &DnsResults) -> (r: Vec<AnalysisFinding>)
    ensures
        findings_view(r@) == dns_findings(*results),
{
    let mut out = analyze_dmarc(&results.dmarc);
    let mut spf = analyze_spf(&results.spf);
    let mut dkim = analyze_absence(&results.dkim, Severity::Info, "DNS_DKIM_MISSING");
    let mut caa = analyze_absence(&results.caa, Severity::Info, "DNS_CAA_MISSING");
    let ghost (a, b, c, d) = (out@, spf@, dkim@, caa@);
    out.append(&mut spf);
    out.append(&mut dkim);
    out.append(&mut caa);
    assert(findings_view(a + b + c + d) =~= findings_view(a) + findings_view(b) + findings_view(c)
        + findings_view(d));
    out
}

/// Assembles the DNS results from the four answers and applies the rules:
/// everything the probe does once the lookups are back.
pub fn dns_results_from(
    spf: Result<Vec<String>, String>,
    dmarc: Result<Vec<String>, String>,
    dkim: &Vec<(String, Result<Vec<String>, String>)>,
    caa: Result<Vec<String>, String>,
) -> (r: DnsResults)
    ensures
        spf_outcome(answer_view(spf), err_text(spf), r.spf),
        dmarc_outcome(answer_view(dmarc), err_text(dmarc), r.dmarc),
        r.dkim is NotFound <==> dkim_all(dkim_answers_view(dkim@)).len() == 0,
        r.dkim matches Outcome::Found(v) ==> dkim_view(v@) == dkim_all(dkim_answers_view(dkim@)),
        !(r.dkim is Failed),
        match answer_view(caa) {
            None => r.caa matches Outcome::Failed(m) && m@ == dns_error_message(err_text(caa)),
            Some(recs) => if recs.len() == 0 {
                r.caa is NotFound
            } else {
                r.caa matches Outcome::Found(v) && v@.map_values(|s: String| s@) == recs
            },
        },
        findings_view(r.analysis@) == dns_findings(r),
{
    let mut r = DnsResults {
        spf: spf_from_txt(spf),
        dmarc: dmarc_from_txt(dmarc),
        dkim: dkim_from_answers(dkim),
        caa: caa_from_answer(caa),
        analysis: Vec::new(),
    };
    r.analysis = analyze_dns_results(&r);
    r
}

/// An SPF record that ends in `~all` draws exactly one finding
/// `DNS_SPF_POLICY_SOFTFAIL`, of severity Info, and never the neutral one.
pub proof fn lemma_spf_softfail_exclusive(r: DnsResults)
    requires
        r.spf matches Outcome::Found(d) && is_suffix("~all"@, d.record@),
    ensures
        count_code(dns_findings(r), "DNS_SPF_POLICY_SOFTFAIL"@) == 1,
        count_code(dns_findings(r), "DNS_SPF_POLICY_NEUTRAL"@) == 0,
        dns_findings(r).contains((Severity::Info, "DNS_SPF_POLICY_SOFTFAIL"@)),
{
    reveal_strlit("DNS_SPF_POLICY_SOFTFAIL");
    reveal_strlit("DNS_SPF_POLICY_NEUTRAL");
    reveal_strlit("DNS_DMARC_POLICY_NONE");
    reveal_strlit("DNS_DMARC_MISSING");
    reveal_strlit("DNS_DKIM_MISSING");
    reveal_strlit("DNS_CAA_MISSING");
    let a = dmarc_findings(r.dmarc);
    let b = spf_findings(r.spf);
    let c = absence_findings(r.dkim, Severity::Info, "DNS_DKIM_MISSING"@);
    let d = absence_findings(r.caa, Severity::Info, "DNS_CAA_MISSING"@);
    assert(b == seq![(Severity::Info, "DNS_SPF_POLICY_SOFTFAIL"@)]);
    let codes = seq!["DNS_SPF_POLICY_SOFTFAIL"@, "DNS_SPF_POLICY_NEUTRAL"@];
    assert(codes[0].len() == 23 && codes[1].len() == 22);
    assert(a.len() > 0 ==> a[0].1.len() == 21 || a[0].1.len() == 17);
    assert(c.len() > 0 ==> c[0].1.len() == 16);
    assert(d.len() > 0 ==> d[0].1.len() == 15);
    assert forall|k: int| 0 <= k < 2 implies count_code(dns_findings(r), #[trigger] codes[k]) == count_code(a, codes[k])
        + count_code(b, codes[k]) + count_code(c, codes[k]) + count_code(d, codes[k]) by {
        lemma_count_code_concat(a, b, codes[k]);
        lemma_count_code_concat(a + b, c, codes[k]);
        lemma_count_code_concat(a + b + c, d, codes[k]);
    }
    assert forall|k: int| 0 <= k < 2 implies count_code(a, #[trigger] codes[k]) == 0 && count_code(c, codes[k]) == 0
        && count_code(d, codes[k]) == 0 by {
        if a.len() > 0 {
            lemma_count_code_single(a[0], codes[k]);
            assert(a =~= seq![a[0]]);
        }
        if c.len() > 0 {
            lemma_count_code_single(c[0], codes[k]);
            assert(c =~= seq![c[0]]);
        }
        if d.len() > 0 {
            lemma_count_code_single(d[0], codes[k]);
            assert(d =~= seq![d[0]]);
        }
    }
    lemma_count_code_single(b[0], codes[0]);
    lemma_count_code_single(b[0], codes[1]);
    assert(count_code(dns_findings(r), codes[0]) == 1);
    assert(count_code(dns_findings(r), codes[1]) == 0);
    assert(dns_findings(r)[a.len() as int] == b[0]);
}

} // verus!
