use vanguard_rs::dns::{
    analyze_dns_results, caa_from_answer, dkim_from_answers, dkim_query_name, dkim_selectors,
    dmarc_from_txt, dmarc_query_name, dns_results_from, parse_dmarc_policy, root_domain,
    spf_from_txt,
};
use vanguard_rs::models::{DmarcData, DnsResults, Outcome, Severity, SpfData};

fn strings(v: &[&str]) -> Vec<String> {
    v.iter().map(|s| s.to_string()).collect()
}

fn codes(r: &DnsResults) -> Vec<(Severity, String)> {
    r.analysis.iter().map(|f| (f.severity, f.code.clone())).collect()
}

#[test]
fn root_domain_strips_www() {
    assert_eq!(root_domain("www.example.com"), "example.com");
    assert_eq!(root_domain("example.com"), "example.com");
    assert_eq!(root_domain("mail.example.com"), "mail.example.com");
    assert_eq!(root_domain("www."), "");
}

#[test]
fn query_names() {
    assert_eq!(dmarc_query_name("example.com"), "_dmarc.example.com");
    assert_eq!(dkim_query_name("google", "example.com"), "google._domainkey.example.com");
    assert_eq!(dkim_selectors(), strings(&["google", "selector1", "selector2", "default", "dkim"]));
}

#[test]
fn dmarc_policy_quarantine() {
    assert_eq!(parse_dmarc_policy("v=DMARC1; p=quarantine; rua=mailto:x"), Some("quarantine".to_string()));
}

#[test]
fn dmarc_policy_absent() {
    assert_eq!(parse_dmarc_policy("v=DMARC1; rua=mailto:x"), None);
    assert_eq!(parse_dmarc_policy(""), None);
}

#[test]
fn dmarc_policy_trimmed_and_cut() {
    assert_eq!(parse_dmarc_policy("v=DMARC1;  p=reject  ;sp=none"), Some("reject".to_string()));
    assert_eq!(parse_dmarc_policy("v=DMARC1;p=none"), Some("none".to_string()));
    assert_eq!(parse_dmarc_policy("v=DMARC1; p=a=b"), Some("a".to_string()));
    assert_eq!(parse_dmarc_policy("v=DMARC1; sp=none; p="), Some("".to_string()));
}

#[test]
fn spf_takes_first_spf_record() {
    let r = spf_from_txt(Ok(strings(&["google-site-verification=x", "v=spf1 -all", "v=spf1 ~all"])));
    match r {
        Outcome::Found(d) => assert_eq!(d.record, "v=spf1 -all"),
        _ => panic!("expected a record"),
    }
    assert!(matches!(spf_from_txt(Ok(strings(&["other"]))), Outcome::NotFound));
    match spf_from_txt(Err("timeout".to_string())) {
        Outcome::Failed(m) => assert_eq!(m, "DNS Error: timeout"),
        _ => panic!("expected a failure"),
    }
}

#[test]
fn dmarc_takes_first_record() {
    match dmarc_from_txt(Ok(strings(&["v=DMARC1; p=none", "v=DMARC1; p=reject"]))) {
        Outcome::Found(d) => {
            assert_eq!(d.record, "v=DMARC1; p=none");
            assert_eq!(d.policy, Some("none".to_string()));
        }
        _ => panic!("expected a record"),
    }
    assert!(matches!(dmarc_from_txt(Ok(Vec::new())), Outcome::NotFound));
    assert!(matches!(dmarc_from_txt(Err("refused".to_string())), Outcome::Failed(_)));
}

#[test]
fn dkim_keeps_key_records_and_skips_failures() {
    let answers = vec![
        ("google".to_string(), Ok(strings(&["v=DKIM1; k=rsa; p=AAA", "junk"]))),
        ("selector1".to_string(), Err("NXDOMAIN".to_string())),
        ("selector2".to_string(), Ok(strings(&["v=DKIM1; p=BBB"]))),
    ];
    match dkim_from_answers(&answers) {
        Outcome::Found(v) => {
            assert_eq!(v.len(), 2);
            assert_eq!(v[0].selector, "google");
            assert_eq!(v[0].record, "v=DKIM1; k=rsa; p=AAA");
            assert_eq!(v[1].selector, "selector2");
        }
        _ => panic!("expected records"),
    }
    let none = vec![("google".to_string(), Err::<Vec<String>, String>("NXDOMAIN".to_string()))];
    assert!(matches!(dkim_from_answers(&none), Outcome::NotFound));
}

#[test]
fn caa_records() {
    match caa_from_answer(Ok(strings(&["0 issue \"letsencrypt.org\""]))) {
        Outcome::Found(v) => assert_eq!(v, strings(&["0 issue \"letsencrypt.org\""])),
        _ => panic!("expected records"),
    }
    assert!(matches!(caa_from_answer(Ok(Vec::new())), Outcome::NotFound));
    match caa_from_answer(Err("servfail".to_string())) {
        Outcome::Failed(m) => assert_eq!(m, "DNS Error: servfail"),
        _ => panic!("expected a failure"),
    }
}

fn results(spf: Outcome<SpfData>, dmarc: Outcome<DmarcData>) -> DnsResults {
    DnsResults { spf, dmarc, dkim: Outcome::Found(Vec::new()), caa: Outcome::Found(Vec::new()), analysis: Vec::new() }
}

#[test]
fn spf_softfail_draws_one_info() {
    let r = results(
        Outcome::Found(SpfData { record: "v=spf1 include:_spf.google.com ~all".to_string() }),
        Outcome::Found(DmarcData { record: "v=DMARC1; p=reject".to_string(), policy: Some("reject".to_string()) }),
    );
    let f = analyze_dns_results(&r);
    assert_eq!(f.len(), 1);
    assert_eq!(f[0].severity, Severity::Info);
    assert_eq!(f[0].code, "DNS_SPF_POLICY_SOFTFAIL");
    assert!(f.iter().all(|x| x.code != "DNS_SPF_POLICY_NEUTRAL"));
}

#[test]
fn spf_neutral_draws_one_info() {
    let r = results(Outcome::Found(SpfData { record: "v=spf1 ?all".to_string() }), Outcome::Failed("x".to_string()));
    let f = analyze_dns_results(&r);
    assert_eq!(f.len(), 1);
    assert_eq!(f[0].code, "DNS_SPF_POLICY_NEUTRAL");
}

#[test]
fn dmarc_policy_none_draws_warning() {
    let r = results(
        Outcome::Found(SpfData { record: "v=spf1 -all".to_string() }),
        Outcome::Found(DmarcData { record: "v=DMARC1; p=none".to_string(), policy: Some("none".to_string()) }),
    );
    let f = analyze_dns_results(&r);
    assert_eq!(f.len(), 1);
    assert_eq!(f[0].severity, Severity::Warning);
    assert_eq!(f[0].code, "DNS_DMARC_POLICY_NONE");
}

#[test]
fn everything_missing_draws_four_findings_in_order() {
    let r = dns_results_from(Ok(Vec::new()), Ok(Vec::new()), &Vec::new(), Ok(Vec::new()));
    assert_eq!(
        codes(&r),
        vec![
            (Severity::Critical, "DNS_DMARC_MISSING".to_string()),
            (Severity::Warning, "DNS_SPF_MISSING".to_string()),
            (Severity::Info, "DNS_DKIM_MISSING".to_string()),
            (Severity::Info, "DNS_CAA_MISSING".to_string()),
        ]
    );
}

#[test]
fn lookup_failures_draw_no_findings() {
    let e = || Err::<Vec<String>, String>("timeout".to_string());
    let dkim = vec![("google".to_string(), Ok(strings(&["v=DKIM1; p=X"])))];
    let r = dns_results_from(e(), e(), &dkim, e());
    assert!(r.analysis.is_empty());
    assert!(matches!(r.spf, Outcome::Failed(_)));
    assert!(matches!(r.caa, Outcome::Failed(_)));
}
