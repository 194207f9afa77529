//! Fingerprint probe logic: an ordered registry of detection rules, each a
//! piece of evidence to look at and a pattern, applied to one response; the
//! matches form a technology inventory, one entry per technology.
use vstd::prelude::*;
use vstd::string::{StrSliceExecFns, StringExecFns};
use crate::headers::{HeaderEntry, find_header, header_lookup};
use crate::models::{FingerprintResults, Technology};
use crate::text::{eq_ignore_ascii_case, same_ignoring_ascii_case, same_text};

verus! {

/// The evidence a rule looks at.
#[derive(Debug, Clone, Copy)]
pub enum CheckKind {
    /// The value of the named response header.
    Header(&'static str),
    /// The `content` of the first `<meta>` tag with the given `name`.
    MetaTag(&'static str),
    /// The whole response body.
    Body,
    /// Every `src` of a `<script>` tag, the first match counting.
    ScriptSrc,
    /// Every `href` of a `<link>` tag, the first match counting.
    LinkHref,
    /// The `Set-Cookie` values, joined with `"; "`.
    Cookie,
}

/// One detection rule: which technology a match reveals, where to look and
/// what to look for. A first capture group in the pattern, where it matches
/// non-empty text, is the version.
#[derive(Debug, Clone, Copy)]
pub struct FingerprintRule {
    pub tech_name: &'static str,
    pub category: &'static str,
    pub check: CheckKind,
    pub pattern: &'static str,
}

/// The response a fingerprint is taken from: its headers and its body.
#[derive(Debug, Clone)]
pub struct ResponseEvidence {
    pub headers: Vec<HeaderEntry>,
    pub body: String,
}

/// Where the regular expression `pattern` first matches in `text`: `None`
/// where it does not match (or does not compile), `Some(g)` where it does,
/// `g` being the text of its first capture group if that group took part.
pub uninterp spec fn regex_capture(pattern: Seq<char>, text: Seq<char>) -> Option<Option<Seq<char>>>;

/// Of an HTML document, the `attr` attribute of every element that the CSS
/// selector `selector` matches, in the order the parser created the
/// elements (none where the selector does not parse).
pub uninterp spec fn selected_attributes(body: Seq<char>, selector: Seq<char>, attr: Seq<char>) -> Seq<Option<Seq<char>>>;

/// An optional text seen as an optional character sequence.
pub open spec fn opt_view(o: Option<String>) -> Option<Seq<char>> {
    match o {
        Some(s) => Some(s@),
        None => None,
    }
}

/// Relies on `regex::Regex::new`, `Regex::captures` and `Captures::get`:
/// the outcome depends on the pattern and the text alone.
#[verifier::external_body]
fn regex_first_capture(pattern: &str, text: &str) -> (r: Option<Option<String>>)
    ensures
        match r {
            None => regex_capture(pattern@, text@) is None,
            Some(g) => regex_capture(pattern@, text@) == Some(opt_view(g)),
        },
{
    match regex::Regex::new(pattern) {
        Ok(re) => re.captures(text).map(|caps| caps.get(1).map(|m| m.as_str().to_string())),
        Err(_) => None,
    }
}

/// Relies on `scraper::Html::parse_document`, `Selector::parse`,
/// `Html::select` and `Element::attr`: the outcome depends on the document,
/// the selector and the attribute name alone.
#[verifier::external_body]
fn html_selected_attributes(body: &str, selector: &str, attr: &str) -> (r: Vec<Option<String>>)
    ensures
        r@.map_values(|o: Option<String>| opt_view(o)) == selected_attributes(body@, selector@, attr@),
{
    let doc = scraper::Html::parse_document(body);
    match scraper::Selector::parse(selector) {
        Ok(sel) => doc.select(&sel).map(|el| el.value().attr(attr).map(|v| v.to_string())).collect(),
        Err(_) => Vec::new(),
    }
}

/// The selector of the `<meta>` tags named `name`.
pub open spec fn meta_selector(name: Seq<char>) -> Seq<char> {
    "meta[name='"@ + name + "']"@
}

/// The selector of the `<tag>` elements that carry `attr`.
pub open spec fn attribute_selector(tag: Seq<char>, attr: Seq<char>) -> Seq<char> {
    tag + "["@ + attr + "]"@
}

/// The `content` of the first `<meta>` tag named `name`: `None` where
/// there is no such tag, `Some(None)` where it has no `content`.
pub open spec fn first_meta_content(body: Seq<char>, name: Seq<char>) -> Option<Option<Seq<char>>> {
    let vals = selected_attributes(body, meta_selector(name), "content"@);
    if vals.len() == 0 {
        None
    } else {
        Some(vals[0])
    }
}

/// The `attr` of every `<tag>` that has one, in the parser's order.
pub open spec fn attribute_values(body: Seq<char>, tag: Seq<char>, attr: Seq<char>) -> Seq<Option<Seq<char>>> {
    selected_attributes(body, attribute_selector(tag, attr), attr)
}

fn meta_selector_text(name: &str) -> (r: String)
    ensures
        r@ == meta_selector(name@),
{
    let mut r = String::from_str("meta[name='");
    r.append(name);
    r.append("']");
    r
}

fn attribute_selector_text(tag: &str, attr: &str) -> (r: String)
    ensures
        r@ == attribute_selector(tag@, attr@),
{
    let mut r = String::from_str(tag);
    r.append("[");
    r.append(attr);
    r.append("]");
    r
}

/// What a pattern says of a text: `None` for no match, `Some(None)` for a
/// match without a version, `Some(Some(v))` for a match that captured the
/// non-empty version `v`.
pub open spec fn version_match(pattern: Seq<char>, text: Seq<char>) -> Option<Option<Seq<char>>> {
    match regex_capture(pattern, text) {
        None => None,
        Some(None) => Some(None),
        Some(Some(v)) => if v.len() == 0 {
            Some(None)
        } else {
            Some(Some(v))
        },
    }
}

/// Applies `pattern` to `text`; a capture group that matched empty text
/// counts as no version.
pub fn check_with_regex(text: &str, pattern: &str) -> (r: Option<Option<String>>)
    ensures
        r matches Some(v) ==> version_match(pattern@, text@) == Some(opt_view(v)),
        r is None ==> version_match(pattern@, text@) is None,
{
    match regex_first_capture(pattern, text) {
        None => None,
        Some(None) => Some(None),
        Some(Some(v)) => if v.unicode_len() == 0 {
            Some(None)
        } else {
            Some(Some(v))
        },
    }
}

/// Of the values `vals` at or after `i`, the verdict of the first one that
/// is present and matches.
pub open spec fn first_value_match(pattern: Seq<char>, vals: Seq<Option<Seq<char>>>, i: int) -> Option<Option<Seq<char>>>
    decreases vals.len() - i,
{
    if i < 0 || i >= vals.len() {
        None
    } else {
        match vals[i] {
            Some(t) => match version_match(pattern, t) {
                Some(v) => Some(v),
                None => first_value_match(pattern, vals, i + 1),
            },
            None => first_value_match(pattern, vals, i + 1),
        }
    }
}

/// Applies `pattern` to the `attr` of every `<tag>` of the page, the first
/// match counting.
pub fn check_attribute(body: &str, tag: &str, attr: &str, pattern: &str) -> (r: Option<Option<String>>)
    ensures
        match r {
            Some(v) => first_value_match(pattern@, attribute_values(body@, tag@, attr@), 0) == Some(opt_view(v)),
            None => first_value_match(pattern@, attribute_values(body@, tag@, attr@), 0) is None,
        },
{
    let sel = attribute_selector_text(tag, attr);
    let vals = html_selected_attributes(body, sel.as_str(), attr);
    let ghost vv = vals@.map_values(|o: Option<String>| opt_view(o));
    let mut i: usize = 0;
    while i < vals.len()
        invariant
            i <= vals@.len(),
            vv == vals@.map_values(|o: Option<String>| opt_view(o)),
            vv == attribute_values(body@, tag@, attr@),
            first_value_match(pattern@, vv, 0) == first_value_match(pattern@, vv, i as int),
        decreases vals.len() - i,
    {
        assert(vv[i as int] == opt_view(vals@[i as int]));
        if let Some(t) = &vals[i] {
            let m = check_with_regex(t.as_str(), pattern);
            if m.is_some() {
                return m;
            }
        }
        i = i + 1;
    }
    None
}

/// Applies `pattern` to the `content` of the first `<meta>` tag named `name`.
pub fn check_meta_tag(body: &str, name: &str, pattern: &str) -> (r: Option<Option<String>>)
    ensures
        match first_meta_content(body@, name@) {
            Some(Some(c)) => match r {
                Some(v) => version_match(pattern@, c) == Some(opt_view(v)),
                None => version_match(pattern@, c) is None,
            },
            _ => r is None,
        },
{
    let sel = meta_selector_text(name);
    let vals = html_selected_attributes(body, sel.as_str(), "content");
    if vals.len() == 0 {
        return None;
    }
    assert(opt_view(vals@[0]) == vals@.map_values(|o: Option<String>| opt_view(o))[0]);
    match &vals[0] {
        Some(c) => check_with_regex(c.as_str(), pattern),
        None => None,
    }
}

/// `a` joined with `sep` between neighbours.
pub open spec fn join_with(a: Seq<Seq<char>>, sep: Seq<char>) -> Seq<char>
    decreases a.len(),
{
    if a.len() == 0 {
        Seq::empty()
    } else if a.len() == 1 {
        a[0]
    } else {
        join_with(a.drop_last(), sep) + sep + a.last()
    }
}

/// The text values of the `Set-Cookie` headers, in order.
pub open spec fn cookie_values(hs: Seq<HeaderEntry>) -> Seq<Seq<char>>
    decreases hs.len(),
{
    if hs.len() == 0 {
        Seq::empty()
    } else {
        let rest = cookie_values(hs.drop_last());
        if same_ignoring_ascii_case(hs.last().name@, "set-cookie"@) && hs.last().value is Some {
            rest.push(hs.last().value.unwrap()@)
        } else {
            rest
        }
    }
}

/// The `Set-Cookie` values that are text, joined with `"; "`.
pub fn cookie_text(headers: &Vec<HeaderEntry>) -> (r: String)
    ensures
        r@ == join_with(cookie_values(headers@), "; "@),
{
    let mut r = String::new();
    let mut any = false;
    let ghost mut vals: Seq<Seq<char>> = Seq::empty();
    let mut i: usize = 0;
    while i < headers.len()
        invariant
            i <= headers@.len(),
            vals == cookie_values(headers@.take(i as int)),
            r@ == join_with(vals, "; "@),
            any == (vals.len() > 0),
        decreases headers.len() - i,
    {
        assert(headers@.take(i + 1).drop_last() =~= headers@.take(i as int));
        if eq_ignore_ascii_case(headers[i].name.as_str(), "set-cookie") {
            if let Some(v) = &headers[i].value {
                if any {
                    r.append("; ");
                }
                r.append(v.as_str());
                any = true;
                proof {
                    let old_vals = vals;
                    vals = vals.push(v@);
                    assert(vals.drop_last() =~= old_vals);
                    if old_vals.len() == 0 {
                        assert(r@ =~= vals[0]);
                    }
                }
            }
        }
        i = i + 1;
    }
    assert(headers@.take(headers@.len() as int) =~= headers@);
    r
}

/// The verdict of `rule` on the response `ev`.
pub open spec fn rule_result(rule: FingerprintRule, ev: ResponseEvidence) -> Option<Option<Seq<char>>> {
    match rule.check {
        CheckKind::Header(name) => match header_lookup(ev.headers@, name@) {
            Some(Some(t)) => version_match(rule.pattern@, t),
            _ => None,
        },
        CheckKind::MetaTag(name) => match first_meta_content(ev.body@, name@) {
            Some(Some(c)) => version_match(rule.pattern@, c),
            _ => None,
        },
        CheckKind::Body => version_match(rule.pattern@, ev.body@),
        CheckKind::ScriptSrc => first_value_match(rule.pattern@, attribute_values(ev.body@, "script"@, "src"@), 0),
        CheckKind::LinkHref => first_value_match(rule.pattern@, attribute_values(ev.body@, "link"@, "href"@), 0),
        CheckKind::Cookie => version_match(rule.pattern@, join_with(cookie_values(ev.headers@), "; "@)),
    }
}

/// Applies one rule to the response.
pub fn apply_rule(rule: &FingerprintRule, ev: &ResponseEvidence) -> (r: Option<Option<String>>)
    ensures
        match r {
            Some(v) => rule_result(*rule, *ev) == Some(opt_view(v)),
            None => rule_result(*rule, *ev) is None,
        },
{
    match rule.check {
        CheckKind::Header(name) => match find_header(&ev.headers, name) {
            Some(Some(t)) => check_with_regex(t.as_str(), rule.pattern),
            _ => None,
        },
        CheckKind::MetaTag(name) => check_meta_tag(ev.body.as_str(), name, rule.pattern),
        CheckKind::Body => check_with_regex(ev.body.as_str(), rule.pattern),
        CheckKind::ScriptSrc => check_attribute(ev.body.as_str(), "script", "src", rule.pattern),
        CheckKind::LinkHref => check_attribute(ev.body.as_str(), "link", "href", rule.pattern),
        CheckKind::Cookie => {
            let cookies = cookie_text(&ev.headers);
            check_with_regex(cookies.as_str(), rule.pattern)
        },
    }
}

/// The rule registry, in the order the rules are applied.
pub open spec fn rule_table() -> Seq<FingerprintRule> {
    seq![
        FingerprintRule { tech_name: "Nginx", category: "Web Server", check: CheckKind::Header("server"), pattern: "nginx/([\\d\\.]+)" },
        FingerprintRule { tech_name: "Nginx", category: "Web Server", check: CheckKind::Body, pattern: "<hr><center>nginx</center>" },
        FingerprintRule { tech_name: "Apache", category: "Web Server", check: CheckKind::Header("server"), pattern: "Apache/([\\d\\.]+)" },
        FingerprintRule { tech_name: "Apache", category: "Web Server", check: CheckKind::Body, pattern: "Apache Server at" },
        FingerprintRule { tech_name: "Cloudflare", category: "CDN / WAF", check: CheckKind::Header("server"), pattern: "cloudflare" },
        FingerprintRule { tech_name: "LiteSpeed", category: "Web Server", check: CheckKind::Header("server"), pattern: "LiteSpeed" },
        FingerprintRule { tech_name: "WordPress", category: "CMS", check: CheckKind::MetaTag("generator"), pattern: "WordPress ([\\d\\.]+)" },
        FingerprintRule { tech_name: "WordPress", category: "CMS", check: CheckKind::Body, pattern: "/wp-content/|/wp-includes/" },
        FingerprintRule { tech_name: "WordPress", category: "CMS", check: CheckKind::Body, pattern: "wp-login\\.php" },
        FingerprintRule { tech_name: "Joomla", category: "CMS", check: CheckKind::MetaTag("generator"), pattern: "Joomla!" },
        FingerprintRule { tech_name: "Shopify", category: "E-commerce", check: CheckKind::Header("x-shopid"), pattern: "shopify" },
        FingerprintRule { tech_name: "Magento", category: "E-commerce", check: CheckKind::Cookie, pattern: "magento" },
        FingerprintRule { tech_name: "PHP", category: "Language", check: CheckKind::Header("x-powered-by"), pattern: "PHP/([\\d\\.]+)" },
        FingerprintRule { tech_name: "PHP", category: "Language", check: CheckKind::Cookie, pattern: "PHPSESSID" },
        FingerprintRule { tech_name: "ASP.NET", category: "Framework", check: CheckKind::Header("x-aspnet-version"), pattern: "ASP\\.NET" },
        FingerprintRule { tech_name: "Java", category: "Language", check: CheckKind::Cookie, pattern: "JSESSIONID" },
        FingerprintRule { tech_name: "Python/Django", category: "Framework", check: CheckKind::Cookie, pattern: "csrftoken" },
        FingerprintRule { tech_name: "Ruby on Rails", category: "Framework", check: CheckKind::Cookie, pattern: "_rails_session" },
        FingerprintRule { tech_name: "Next.js", category: "JS Framework", check: CheckKind::Header("x-powered-by"), pattern: "Next\\.js ([\\d\\.]+)" },
        FingerprintRule { tech_name: "Next.js", category: "JS Framework", check: CheckKind::ScriptSrc, pattern: "/_next/static/" },
        FingerprintRule { tech_name: "Nuxt.js", category: "JS Framework", check: CheckKind::Body, pattern: "__NUXT__" },
        FingerprintRule { tech_name: "Angular", category: "JS Framework", check: CheckKind::Body, pattern: "ng-version=\"([\\d\\.]+)\"" },
        FingerprintRule { tech_name: "SolidJS", category: "JS Framework", check: CheckKind::Body, pattern: "data-hk=" },
        FingerprintRule { tech_name: "Svelte", category: "JS Framework", check: CheckKind::Body, pattern: "class=[\"']svelte-" },
        FingerprintRule { tech_name: "Gatsby", category: "JS Framework", check: CheckKind::Body, pattern: "id=[\"']___gatsby[\"']" },
        FingerprintRule { tech_name: "Astro", category: "JS Framework", check: CheckKind::MetaTag("generator"), pattern: "Astro v([\\d\\.]+)" },
        FingerprintRule { tech_name: "React", category: "JS Library", check: CheckKind::Body, pattern: "react-dom|data-reactroot|react\\.development" },
        FingerprintRule { tech_name: "Vue.js", category: "JS Library", check: CheckKind::Body, pattern: "data-v-app|__VUE_" },
        FingerprintRule { tech_name: "jQuery", category: "JS Library", check: CheckKind::ScriptSrc, pattern: "jquery[\\.min|\\.slim|\\.js|/](-|\\?v=)?([\\d\\.]+)" },
        FingerprintRule { tech_name: "jQuery", category: "JS Library", check: CheckKind::Body, pattern: "\\.fn\\.jquery: \"([\\d\\.]+)\"" },
        FingerprintRule { tech_name: "Bootstrap", category: "UI Framework", check: CheckKind::LinkHref, pattern: "bootstrap.min.css" },
        FingerprintRule { tech_name: "Google Analytics", category: "Analytics", check: CheckKind::ScriptSrc, pattern: "google-analytics.com/|googletagmanager.com/" },
    ]
}

/// The rules, in the order they are applied.
pub fn fingerprint_rules() -> (r: Vec<FingerprintRule>)
    ensures
        r@ == rule_table(),
{
    let r: Vec<FingerprintRule> = vec![
        FingerprintRule { tech_name: "Nginx", category: "Web Server", check: CheckKind::Header("server"), pattern: "nginx/([\\d\\.]+)" },
        FingerprintRule { tech_name: "Nginx", category: "Web Server", check: CheckKind::Body, pattern: "<hr><center>nginx</center>" },
        FingerprintRule { tech_name: "Apache", category: "Web Server", check: CheckKind::Header("server"), pattern: "Apache/([\\d\\.]+)" },
        FingerprintRule { tech_name: "Apache", category: "Web Server", check: CheckKind::Body, pattern: "Apache Server at" },
        FingerprintRule { tech_name: "Cloudflare", category: "CDN / WAF", check: CheckKind::Header("server"), pattern: "cloudflare" },
        FingerprintRule { tech_name: "LiteSpeed", category: "Web Server", check: CheckKind::Header("server"), pattern: "LiteSpeed" },
        FingerprintRule { tech_name: "WordPress", category: "CMS", check: CheckKind::MetaTag("generator"), pattern: "WordPress ([\\d\\.]+)" },
        FingerprintRule { tech_name: "WordPress", category: "CMS", check: CheckKind::Body, pattern: "/wp-content/|/wp-includes/" },
        FingerprintRule { tech_name: "WordPress", category: "CMS", check: CheckKind::Body, pattern: "wp-login\\.php" },
        FingerprintRule { tech_name: "Joomla", category: "CMS", check: CheckKind::MetaTag("generator"), pattern: "Joomla!" },
        FingerprintRule { tech_name: "Shopify", category: "E-commerce", check: CheckKind::Header("x-shopid"), pattern: "shopify" },
        FingerprintRule { tech_name: "Magento", category: "E-commerce", check: CheckKind::Cookie, pattern: "magento" },
        FingerprintRule { tech_name: "PHP", category: "Language", check: CheckKind::Header("x-powered-by"), pattern: "PHP/([\\d\\.]+)" },
        FingerprintRule { tech_name: "PHP", category: "Language", check: CheckKind::Cookie, pattern: "PHPSESSID" },
        FingerprintRule { tech_name: "ASP.NET", category: "Framework", check: CheckKind::Header("x-aspnet-version"), pattern: "ASP\\.NET" },
        FingerprintRule { tech_name: "Java", category: "Language", check: CheckKind::Cookie, pattern: "JSESSIONID" },
        FingerprintRule { tech_name: "Python/Django", category: "Framework", check: CheckKind::Cookie, pattern: "csrftoken" },
        FingerprintRule { tech_name: "Ruby on Rails", category: "Framework", check: CheckKind::Cookie, pattern: "_rails_session" },
        FingerprintRule { tech_name: "Next.js", category: "JS Framework", check: CheckKind::Header("x-powered-by"), pattern: "Next\\.js ([\\d\\.]+)" },
        FingerprintRule { tech_name: "Next.js", category: "JS Framework", check: CheckKind::ScriptSrc, pattern: "/_next/static/" },
        FingerprintRule { tech_name: "Nuxt.js", category: "JS Framework", check: CheckKind::Body, pattern: "__NUXT__" },
        FingerprintRule { tech_name: "Angular", category: "JS Framework", check: CheckKind::Body, pattern: "ng-version=\"([\\d\\.]+)\"" },
        FingerprintRule { tech_name: "SolidJS", category: "JS Framework", check: CheckKind::Body, pattern: "data-hk=" },
        FingerprintRule { tech_name: "Svelte", category: "JS Framework", check: CheckKind::Body, pattern: "class=[\"']svelte-" },
        FingerprintRule { tech_name: "Gatsby", category: "JS Framework", check: CheckKind::Body, pattern: "id=[\"']___gatsby[\"']" },
        FingerprintRule { tech_name: "Astro", category: "JS Framework", check: CheckKind::MetaTag("generator"), pattern: "Astro v([\\d\\.]+)" },
        FingerprintRule { tech_name: "React", category: "JS Library", check: CheckKind::Body, pattern: "react-dom|data-reactroot|react\\.development" },
        FingerprintRule { tech_name: "Vue.js", category: "JS Library", check: CheckKind::Body, pattern: "data-v-app|__VUE_" },
        FingerprintRule { tech_name: "jQuery", category: "JS Library", check: CheckKind::ScriptSrc, pattern: "jquery[\\.min|\\.slim|\\.js|/](-|\\?v=)?([\\d\\.]+)" },
        FingerprintRule { tech_name: "jQuery", category: "JS Library", check: CheckKind::Body, pattern: "\\.fn\\.jquery: \"([\\d\\.]+)\"" },
        FingerprintRule { tech_name: "Bootstrap", category: "UI Framework", check: CheckKind::LinkHref, pattern: "bootstrap.min.css" },
        FingerprintRule { tech_name: "Google Analytics", category: "Analytics", check: CheckKind::ScriptSrc, pattern: "google-analytics.com/|googletagmanager.com/" },
    ];
    r
}

/// A technology seen as (name, category, version).
pub open spec fn tech_view(t: Technology) -> (Seq<char>, Seq<char>, Option<Seq<char>>) {
    (t.name@, t.category@, opt_view(t.version))
}

pub open spec fn techs_view(v: Seq<Technology>) -> Seq<(Seq<char>, Seq<char>, Option<Seq<char>>)> {
    v.map_values(|t: Technology| tech_view(t))
}

/// The position of the first entry at or after `i` named `name`, or the
/// length where there is none.
pub open spec fn tech_index_from(found: Seq<(Seq<char>, Seq<char>, Option<Seq<char>>)>, name: Seq<char>, i: int) -> int
    decreases found.len() - i,
{
    if i < 0 || i >= found.len() {
        found.len() as int
    } else if found[i].0 == name {
        i
    } else {
        tech_index_from(found, name, i + 1)
    }
}

/// The inventory once a match of technology `name` with version verdict
/// `v` is recorded: a technology seen before keeps its entry and gains the
/// version only where it had none; a new one is appended.
pub open spec fn merge_match(
    found: Seq<(Seq<char>, Seq<char>, Option<Seq<char>>)>,
    name: Seq<char>,
    category: Seq<char>,
    v: Option<Seq<char>>,
) -> Seq<(Seq<char>, Seq<char>, Option<Seq<char>>)> {
    let k = tech_index_from(found, name, 0);
    if k < found.len() {
        if found[k].2 is None && v is Some {
            found.update(k, (found[k].0, found[k].1, v))
        } else {
            found
        }
    } else {
        found.push((name, category, v))
    }
}

/// No two entries share a name.
pub open spec fn names_unique(s: Seq<(Seq<char>, Seq<char>, Option<Seq<char>>)>) -> bool {
    forall|i: int, j: int| 0 <= i < s.len() && 0 <= j < s.len() && i != j ==> #[trigger] s[i].0 != #[trigger] s[j].0
}

pub proof fn lemma_tech_index(found: Seq<(Seq<char>, Seq<char>, Option<Seq<char>>)>, name: Seq<char>, i: int)
    requires
        0 <= i <= found.len(),
    ensures
        i <= tech_index_from(found, name, i) <= found.len(),
        tech_index_from(found, name, i) < found.len() ==> found[tech_index_from(found, name, i)].0 == name,
        forall|j: int| i <= j < tech_index_from(found, name, i) ==> found[j].0 != name,
    decreases found.len() - i,
{
    if i < found.len() && found[i].0 != name {
        lemma_tech_index(found, name, i + 1);
    }
}

/// Records one match in the inventory.
pub fn record_match(found: &mut Vec<Technology>, name: &str, category: &str, version: Option<String>)
    ensures
        techs_view(final(found)@) == merge_match(techs_view(old(found)@), name@, category@, opt_view(version)),
{
    let ghost tv = techs_view(found@);
    let mut i: usize = 0;
    while i < found.len()
        invariant
            i <= found@.len(),
            found@ == old(found)@,
            tv == techs_view(found@),
            tech_index_from(tv, name@, 0) == tech_index_from(tv, name@, i as int),
        decreases found.len() - i,
    {
        if same_text(found[i].name.as_str(), name) {
            if found[i].version.is_none() && version.is_some() {
                let t = Technology {
                    name: found[i].name.clone(),
                    category: found[i].category.clone(),
                    version,
                };
                found[i] = t;
                assert(techs_view(found@) =~= tv.update(i as int, (tv[i as int].0, tv[i as int].1, opt_view(version))));
            }
            return;
        }
        i = i + 1;
    }
    found.push(Technology { name: String::from_str(name), category: String::from_str(category), version });
    assert(techs_view(found@) =~= tv.push((name@, category@, opt_view(version))));
}

/// The inventory that the rules `rules`, applied in order, draw from `ev`.
pub open spec fn detect_all(rules: Seq<FingerprintRule>, ev: ResponseEvidence) -> Seq<(Seq<char>, Seq<char>, Option<Seq<char>>)>
    decreases rules.len(),
{
    if rules.len() == 0 {
        Seq::empty()
    } else {
        let prev = detect_all(rules.drop_last(), ev);
        let rule = rules.last();
        match rule_result(rule, ev) {
            Some(v) => merge_match(prev, rule.tech_name@, rule.category@, v),
            None => prev,
        }
    }
}

/// Applies every rule, in order, to the one response.
pub fn detect_technologies(rules: &Vec<FingerprintRule>, ev: &ResponseEvidence) -> (r: Vec<Technology>)
    ensures
        techs_view(r@) == detect_all(rules@, *ev),
{
    let mut found: Vec<Technology> = Vec::new();
    let mut i: usize = 0;
    while i < rules.len()
        invariant
            i <= rules@.len(),
            techs_view(found@) == detect_all(rules@.take(i as int), *ev),
        decreases rules.len() - i,
    {
        assert(rules@.take(i + 1).drop_last() =~= rules@.take(i as int));
        let rule = &rules[i];
        if let Some(v) = apply_rule(rule, ev) {
            record_match(&mut found, rule.tech_name, rule.category, v);
        }
        i = i + 1;
    }
    assert(rules@.take(rules@.len() as int) =~= rules@);
    found
}

/// Everything the fingerprint probe does once the response is back (`Ok`)
/// or could not be had (`Err` with the reason).
pub fn fingerprint_results_from(response: Result<ResponseEvidence, String>) -> (r: FingerprintResults)
    ensures
        match response {
            Err(m) => r.technologies matches Err(e) && e@ == m@,
            Ok(ev) => r.technologies matches Ok(v) && techs_view(v@) == detect_all(rule_table(), ev),
        },
{
    match response {
        Err(m) => FingerprintResults { technologies: Err(m) },
        Ok(ev) => {
            let rules = fingerprint_rules();
            FingerprintResults { technologies: Ok(detect_technologies(&rules, &ev)) }
        },
    }
}

/// Recording a match keeps the names unique, and never replaces a version
/// already captured.
pub proof fn lemma_merge_keeps_names_and_versions(
    found: Seq<(Seq<char>, Seq<char>, Option<Seq<char>>)>,
    name: Seq<char>,
    category: Seq<char>,
    v: Option<Seq<char>>,
)
    requires
        names_unique(found),
    ensures
        names_unique(merge_match(found, name, category, v)),
        forall|i: int| 0 <= i < found.len() && found[i].2 is Some ==> #[trigger] merge_match(found, name, category, v)[i] == found[i],
        exists|k: int| 0 <= k < merge_match(found, name, category, v).len() && #[trigger] merge_match(found, name, category, v)[k].0 == name,
{
    lemma_tech_index(found, name, 0);
    let k = tech_index_from(found, name, 0);
    let r = merge_match(found, name, category, v);
    if k < found.len() {
        assert(r[k].0 == name);
    } else {
        assert(r[found.len() as int].0 == name);
    }
}

/// Every inventory that the rules draw names each technology once.
pub proof fn lemma_inventory_unique(rules: Seq<FingerprintRule>, ev: ResponseEvidence)
    ensures
        names_unique(detect_all(rules, ev)),
    decreases rules.len(),
{
    if rules.len() > 0 {
        lemma_inventory_unique(rules.drop_last(), ev);
        let rule = rules.last();
        if let Some(v) = rule_result(rule, ev) {
            lemma_merge_keeps_names_and_versions(detect_all(rules.drop_last(), ev), rule.tech_name@, rule.category@, v);
        }
    }
}

/// A technology first matched without a version and then matched with the
/// version `v` ends up as exactly one entry, carrying `v`.
pub proof fn lemma_version_filled_in(
    found: Seq<(Seq<char>, Seq<char>, Option<Seq<char>>)>,
    name: Seq<char>,
    first_category: Seq<char>,
    second_category: Seq<char>,
    v: Seq<char>,
)
    requires
        names_unique(found),
        forall|i: int| 0 <= i < found.len() && #[trigger] found[i].0 == name ==> found[i].2 is None,
    ensures
        names_unique(merge_match(merge_match(found, name, first_category, None), name, second_category, Some(v))),
        exists|k: int|
            0 <= k < merge_match(merge_match(found, name, first_category, None), name, second_category, Some(v)).len()
                && #[trigger] merge_match(merge_match(found, name, first_category, None), name, second_category, Some(v))[k]
                    .0 == name
                && merge_match(merge_match(found, name, first_category, None), name, second_category, Some(v))[k].2
                    == Some(v),
{
    let once = merge_match(found, name, first_category, None);
    lemma_merge_keeps_names_and_versions(found, name, first_category, None);
    lemma_merge_keeps_names_and_versions(once, name, second_category, Some(v));
    lemma_tech_index(found, name, 0);
    lemma_tech_index(once, name, 0);
    let k = tech_index_from(once, name, 0);
    let twice = merge_match(once, name, second_category, Some(v));
    let k0 = tech_index_from(found, name, 0);
    if k0 < found.len() {
        assert(once == found);
    } else {
        assert(once[found.len() as int].0 == name);
        assert(tech_index_from(once, name, 0) <= found.len());
    }
    assert(k < once.len());
    assert(once[k].2 is None);
    assert(twice[k].0 == name && twice[k].2 == Some(v));
}

/// Every name in the inventory is the name of one of the rules.
pub proof fn lemma_inventory_names(rules: Seq<FingerprintRule>, ev: ResponseEvidence)
    ensures
        forall|i: int| 0 <= i < detect_all(rules, ev).len() ==> exists|k: int|
            0 <= k < rules.len() && #[trigger] detect_all(rules, ev)[i].0 == rules[k].tech_name@,
    decreases rules.len(),
{
    if rules.len() > 0 {
        let prev_rules = rules.drop_last();
        lemma_inventory_names(prev_rules, ev);
        let prev = detect_all(prev_rules, ev);
        let rule = rules.last();
        let inv = detect_all(rules, ev);
        lemma_tech_index(prev, rule.tech_name@, 0);
        assert forall|i: int| 0 <= i < inv.len() implies exists|k: int|
            0 <= k < rules.len() && #[trigger] inv[i].0 == rules[k].tech_name@ by {
            if i < prev.len() {
                assert(inv[i].0 == prev[i].0);
                let k = choose|k: int| 0 <= k < prev_rules.len() && prev[i].0 == prev_rules[k].tech_name@;
                assert(rules[k] == prev_rules[k]);
            } else {
                assert(inv[i].0 == rule.tech_name@);
                assert(rules[rules.len() - 1] == rule);
            }
        }
    }
}

/// Of two rules for the same technology, applied after rules for other
/// technologies, one matching without a version and the other capturing
/// the version `v` (in either order): the inventory holds that technology
/// exactly once, with version `v`.
pub proof fn lemma_two_signals_one_entry(
    prefix: Seq<FingerprintRule>,
    first: FingerprintRule,
    second: FingerprintRule,
    ev: ResponseEvidence,
    v: Seq<char>,
)
    requires
        first.tech_name@ == second.tech_name@,
        forall|k: int| 0 <= k < prefix.len() ==> #[trigger] prefix[k].tech_name@ != first.tech_name@,
        (rule_result(first, ev) == Some(None::<Seq<char>>) && rule_result(second, ev) == Some(Some(v)))
            || (rule_result(first, ev) == Some(Some(v)) && rule_result(second, ev) == Some(None::<Seq<char>>)),
    ensures
        names_unique(detect_all(prefix.push(first).push(second), ev)),
        exists|k: int|
            0 <= k < detect_all(prefix.push(first).push(second), ev).len()
                && #[trigger] detect_all(prefix.push(first).push(second), ev)[k].0 == first.tech_name@
                && detect_all(prefix.push(first).push(second), ev)[k].2 == Some(v),
{
    let n = first.tech_name@;
    let base = detect_all(prefix, ev);
    let one = prefix.push(first);
    let two = one.push(second);
    assert(one.drop_last() =~= prefix);
    assert(two.drop_last() =~= one);
    lemma_inventory_unique(prefix, ev);
    lemma_inventory_names(prefix, ev);
    assert forall|i: int| 0 <= i < base.len() implies #[trigger] base[i].0 != n by {
        let k = choose|k: int| 0 <= k < prefix.len() && base[i].0 == prefix[k].tech_name@;
    }
    lemma_tech_index(base, n, 0);
    let after_one = detect_all(one, ev);
    let after_two = detect_all(two, ev);
    if rule_result(first, ev) == Some(None::<Seq<char>>) {
        assert(after_one == merge_match(base, n, first.category@, None));
        assert(after_two == merge_match(after_one, n, second.category@, Some(v)));
        lemma_version_filled_in(base, n, first.category@, second.category@, v);
    } else {
        assert(after_one == base.push((n, first.category@, Some(v))));
        lemma_merge_keeps_names_and_versions(base, n, first.category@, Some(v));
        lemma_merge_keeps_names_and_versions(after_one, n, second.category@, None);
        assert(after_one[base.len() as int].2 is Some);
        assert(after_two[base.len() as int] == after_one[base.len() as int]);
    }
}

} // verus!
