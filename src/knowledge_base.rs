//! Static registry of every finding code with its human guidance.
use vstd::prelude::*;
use crate::models::{DnsResults, Outcome, Severity, SslData, HeadersResults};
use crate::dns::dns_findings;
use crate::tls::ssl_findings;
use crate::headers::headers_findings;
use crate::text::same_text;

verus! {

/// The probe a finding belongs to, used to group findings for display.
#[derive(Debug, Clone, Copy, PartialEq, Eq, PartialOrd, Ord, Structural)]
pub enum FindingCategory {
    /// DNS records (SPF, DMARC, DKIM, CAA).
    Dns,
    /// The TLS certificate.
    Ssl,
    /// HTTP security headers.
    Http,
}

impl FindingCategory {
    /// The human-friendly name of the category.
    pub fn label(&self) -> (r: &'static str)
        ensures
            *self == FindingCategory::Dns ==> r@ == "DNS Configuration"@,
            *self == FindingCategory::Ssl ==> r@ == "SSL/TLS Certificate"@,
            *self == FindingCategory::Http ==> r@ == "HTTP Security Headers"@,
    {
        match self {
            FindingCategory::Dns => "DNS Configuration",
            FindingCategory::Ssl => "SSL/TLS Certificate",
            FindingCategory::Http => "HTTP Security Headers",
        }
    }
}

/// Everything the registry holds about one finding code.
#[derive(Debug, Clone, Copy)]
pub struct FindingDetail {
    /// The unique machine-readable key.
    pub code: &'static str,
    /// A short title.
    pub title: &'static str,
    pub category: FindingCategory,
    pub severity: Severity,
    /// What the finding means and why it matters.
    pub description: &'static str,
    /// What to do about it.
    pub remediation: &'static str,
}

/// The severity and category that the registry declares for `code`, or
/// `None` where the code is not registered.
pub open spec fn kb_class(code: Seq<char>) -> Option<(Severity, FindingCategory)> {
    if code == "DNS_DMARC_MISSING"@ {
        Some((Severity::Critical, FindingCategory::Dns))
    } else if code == "DNS_DMARC_POLICY_NONE"@ {
        Some((Severity::Warning, FindingCategory::Dns))
    } else if code == "DNS_SPF_MISSING"@ {
        Some((Severity::Warning, FindingCategory::Dns))
    } else if code == "DNS_SPF_POLICY_SOFTFAIL"@ {
        Some((Severity::Info, FindingCategory::Dns))
    } else if code == "DNS_SPF_POLICY_NEUTRAL"@ {
        Some((Severity::Info, FindingCategory::Dns))
    } else if code == "DNS_DKIM_MISSING"@ {
        Some((Severity::Info, FindingCategory::Dns))
    } else if code == "DNS_CAA_MISSING"@ {
        Some((Severity::Info, FindingCategory::Dns))
    } else if code == "SSL_HANDSHAKE_FAILED"@ {
        Some((Severity::Critical, FindingCategory::Ssl))
    } else if code == "SSL_NO_CERTIFICATE_FOUND"@ {
        Some((Severity::Warning, FindingCategory::Ssl))
    } else if code == "SSL_EXPIRED"@ {
        Some((Severity::Critical, FindingCategory::Ssl))
    } else if code == "SSL_EXPIRING_SOON"@ {
        Some((Severity::Warning, FindingCategory::Ssl))
    } else if code == "HEADERS_REQUEST_FAILED"@ {
        Some((Severity::Critical, FindingCategory::Http))
    } else if code == "HEADERS_HSTS_MISSING"@ {
        Some((Severity::Warning, FindingCategory::Http))
    } else if code == "HEADERS_CSP_MISSING"@ {
        Some((Severity::Warning, FindingCategory::Http))
    } else if code == "HEADERS_X_FRAME_OPTIONS_MISSING"@ {
        Some((Severity::Warning, FindingCategory::Http))
    } else if code == "HEADERS_X_CONTENT_TYPE_OPTIONS_MISSING"@ {
        Some((Severity::Info, FindingCategory::Http))
    } else {
        None
    }
}

/// The title, description and remediation that the registry holds for
/// `code`, or `None` where the code is not registered.
pub open spec fn kb_texts(code: Seq<char>) -> Option<(Seq<char>, Seq<char>, Seq<char>)> {
    if code == "DNS_DMARC_MISSING"@ {
        Some(("DMARC Record Missing"@, "DMARC is an email authentication policy that protects your domain from being used for email spoofing and phishing. It tells receiving mail servers how to handle emails that fail authentication checks."@, "Add a DMARC record to your domain's DNS settings. Start with a monitoring policy like 'v=DMARC1; p=none;' and gradually move to 'p=quarantine' or 'p=reject' after analyzing reports."@))
    } else if code == "DNS_DMARC_POLICY_NONE"@ {
        Some(("DMARC Policy is 'none'"@, "Your DMARC policy is in 'monitoring only' mode. It reports fraudulent emails but does not instruct receivers to block or quarantine them, offering no active protection against spoofing."@, "After ensuring your legitimate emails pass SPF/DKIM, update your DMARC policy to 'p=quarantine' (sends to spam) or 'p=reject' (blocks delivery) to actively protect your domain."@))
    } else if code == "DNS_SPF_MISSING"@ {
        Some(("SPF Record Missing"@, "Sender Policy Framework (SPF) is a DNS record that lists all the servers authorized to send email on behalf of your domain. Without it, attackers can more easily spoof emails from your domain."@, "Create a TXT record for your domain that defines your authorized mail servers. A simple example for Google Workspace is 'v=spf1 include:_spf.google.com ~all'."@))
    } else if code == "DNS_SPF_POLICY_SOFTFAIL"@ {
        Some(("SPF Policy is 'Softfail'"@, "Your SPF record uses '~all' (softfail), which suggests that receiving servers should accept but mark suspicious mail. This is less secure than '-all' (fail), which instructs servers to reject the mail."@, "If you are confident your SPF record lists all legitimate mail sources, consider changing the ending from '~all' to '-all' for stricter enforcement."@))
    } else if code == "DNS_SPF_POLICY_NEUTRAL"@ {
        Some(("SPF Policy is 'Neutral'"@, "Your SPF record uses '?all' (neutral), which provides no definitive policy on the mail's legitimacy. It essentially tells receivers 'I don't know if this is valid,' offering no protection."@, "This policy should be avoided. Change '?all' to '~all' (softfail) or, preferably, '-all' (fail) to provide a clear security policy to receiving mail servers."@))
    } else if code == "DNS_DKIM_MISSING"@ {
        Some(("DKIM Record Missing"@, "DKIM (DomainKeys Identified Mail) adds a tamper-proof digital signature to emails. This signature confirms that the email was sent from your domain and that its content has not been altered in transit."@, "Enable DKIM signing in your email service provider's control panel. This typically involves generating a key and adding the public part as a TXT record to your DNS."@))
    } else if code == "DNS_CAA_MISSING"@ {
        Some(("CAA Record Missing"@, "A Certificate Authority Authorization (CAA) record specifies which Certificate Authorities (CAs) are allowed to issue SSL/TLS certificates for your domain. This acts as a safeguard against certificate mis-issuance."@, "Add a CAA record to your DNS to lock down certificate issuance to your chosen provider(s). For example: '0 issue \"letsencrypt.org\"'."@))
    } else if code == "SSL_HANDSHAKE_FAILED"@ {
        Some(("TLS Handshake Failed"@, "The scanner could not establish a secure TLS connection with the server. This can be caused by an invalid/missing certificate, unsupported cipher suites, or other critical server misconfigurations."@, "Ensure a valid, trusted SSL/TLS certificate is installed on the server for the correct domain. Use an online tool like SSL Labs to diagnose TLS configuration issues."@))
    } else if code == "SSL_NO_CERTIFICATE_FOUND"@ {
        Some(("No Certificate Presented"@, "The TLS handshake completed, but the server did not present a certificate. Clients cannot verify who they are talking to."@, "Configure the server to present its certificate chain during the TLS handshake."@))
    } else if code == "SSL_EXPIRED"@ {
        Some(("SSL Certificate Expired"@, "The website's SSL certificate is expired. This will cause browsers to show prominent security warnings, block access, and destroy user trust."@, "Renew the SSL certificate immediately. Implement automated renewal processes (e.g., via Let's Encrypt / Certbot) to prevent this from happening in the future."@))
    } else if code == "SSL_EXPIRING_SOON"@ {
        Some(("SSL Certificate Expiring Soon"@, "The SSL certificate will expire in less than 30 days. This is an early warning to prevent service disruption and loss of trust."@, "Renew the SSL certificate before it expires. If you have automated renewals, verify that the system is functioning correctly."@))
    } else if code == "HEADERS_REQUEST_FAILED"@ {
        Some(("HTTP Request Failed"@, "The scanner could not connect to the target server to check its HTTP headers. The server might be down, unreachable, or blocking automated requests."@, "Verify that the target is online and accessible from the public internet. Check for firewalls or network issues that might be blocking the connection."@))
    } else if code == "HEADERS_HSTS_MISSING"@ {
        Some(("HSTS Header Missing"@, "The HTTP Strict-Transport-Security (HSTS) header instructs browsers to only communicate with your site over HTTPS. It protects against protocol downgrade attacks and cookie hijacking."@, "Add the 'Strict-Transport-Security' header to your web server responses. A strong value is 'max-age=31536000; includeSubDomains; preload'."@))
    } else if code == "HEADERS_CSP_MISSING"@ {
        Some(("CSP Header Missing"@, "Content-Security-Policy (CSP) is a powerful security layer that helps prevent attacks like Cross-Site Scripting (XSS) and data injection by defining which resources a browser is allowed to load."@, "Implement a Content-Security-Policy header that defines trusted sources for scripts, styles, and other assets. Start with a restrictive policy and gradually open it up as needed."@))
    } else if code == "HEADERS_X_FRAME_OPTIONS_MISSING"@ {
        Some(("X-Frame-Options Missing"@, "This header protects your visitors against 'clickjacking' attacks, where an attacker loads your site in an invisible iframe to trick users into clicking on malicious content."@, "Add the 'X-Frame-Options' header and set it to 'DENY' (no framing allowed) or 'SAMEORIGIN' (only you can frame your site)."@))
    } else if code == "HEADERS_X_CONTENT_TYPE_OPTIONS_MISSING"@ {
        Some(("X-Content-Type-Options Missing"@, "This header prevents browsers from trying to guess the content type of a file (MIME sniffing). This mitigates attacks where a file disguised as an image could be executed as a script."@, "Add the 'X-Content-Type-Options' header and set its value to 'nosniff'. It's a simple and effective security enhancement."@))
    } else {
        None
    }
}

/// The registry entry for `code`, if the code is registered.
pub fn get_finding_detail(code: &str) -> (r: Option<FindingDetail>)
    ensures
        r is None <==> kb_class(code@) is None,
        r matches Some(d) ==> d.code@ == code@ && kb_class(code@) == Some((d.severity, d.category)),
        r matches Some(d) ==> kb_texts(code@) == Some((d.title@, d.description@, d.remediation@)),
{
    if same_text(code, "DNS_DMARC_MISSING") {
        return Some(FindingDetail {
            code: "DNS_DMARC_MISSING",
            title: "DMARC Record Missing",
            category: FindingCategory::Dns,
            severity: Severity::Critical,
            description: "DMARC is an email authentication policy that protects your domain from being used for email spoofing and phishing. It tells receiving mail servers how to handle emails that fail authentication checks.",
            remediation: "Add a DMARC record to your domain's DNS settings. Start with a monitoring policy like 'v=DMARC1; p=none;' and gradually move to 'p=quarantine' or 'p=reject' after analyzing reports.",
        });
    }
    if same_text(code, "DNS_DMARC_POLICY_NONE") {
        return Some(FindingDetail {
            code: "DNS_DMARC_POLICY_NONE",
            title: "DMARC Policy is 'none'",
            category: FindingCategory::Dns,
            severity: Severity::Warning,
            description: "Your DMARC policy is in 'monitoring only' mode. It reports fraudulent emails but does not instruct receivers to block or quarantine them, offering no active protection against spoofing.",
            remediation: "After ensuring your legitimate emails pass SPF/DKIM, update your DMARC policy to 'p=quarantine' (sends to spam) or 'p=reject' (blocks delivery) to actively protect your domain.",
        });
    }
    if same_text(code, "DNS_SPF_MISSING") {
        return Some(FindingDetail {
            code: "DNS_SPF_MISSING",
            title: "SPF Record Missing",
            category: FindingCategory::Dns,
            severity: Severity::Warning,
            description: "Sender Policy Framework (SPF) is a DNS record that lists all the servers authorized to send email on behalf of your domain. Without it, attackers can more easily spoof emails from your domain.",
            remediation: "Create a TXT record for your domain that defines your authorized mail servers. A simple example for Google Workspace is 'v=spf1 include:_spf.google.com ~all'.",
        });
    }
    if same_text(code, "DNS_SPF_POLICY_SOFTFAIL") {
        return Some(FindingDetail {
            code: "DNS_SPF_POLICY_SOFTFAIL",
            title: "SPF Policy is 'Softfail'",
            category: FindingCategory::Dns,
            severity: Severity::Info,
            description: "Your SPF record uses '~all' (softfail), which suggests that receiving servers should accept but mark suspicious mail. This is less secure than '-all' (fail), which instructs servers to reject the mail.",
            remediation: "If you are confident your SPF record lists all legitimate mail sources, consider changing the ending from '~all' to '-all' for stricter enforcement.",
        });
    }
    if same_text(code, "DNS_SPF_POLICY_NEUTRAL") {
        return Some(FindingDetail {
            code: "DNS_SPF_POLICY_NEUTRAL",
            title: "SPF Policy is 'Neutral'",
            category: FindingCategory::Dns,
            severity: Severity::Info,
            description: "Your SPF record uses '?all' (neutral), which provides no definitive policy on the mail's legitimacy. It essentially tells receivers 'I don't know if this is valid,' offering no protection.",
            remediation: "This policy should be avoided. Change '?all' to '~all' (softfail) or, preferably, '-all' (fail) to provide a clear security policy to receiving mail servers.",
        });
    }
    if same_text(code, "DNS_DKIM_MISSING") {
        return Some(FindingDetail {
            code: "DNS_DKIM_MISSING",
            title: "DKIM Record Missing",
            category: FindingCategory::Dns,
            severity: Severity::Info,
            description: "DKIM (DomainKeys Identified Mail) adds a tamper-proof digital signature to emails. This signature confirms that the email was sent from your domain and that its content has not been altered in transit.",
            remediation: "Enable DKIM signing in your email service provider's control panel. This typically involves generating a key and adding the public part as a TXT record to your DNS.",
        });
    }
    if same_text(code, "DNS_CAA_MISSING") {
        return Some(FindingDetail {
            code: "DNS_CAA_MISSING",
            title: "CAA Record Missing",
            category: FindingCategory::Dns,
            severity: Severity::Info,
            description: "A Certificate Authority Authorization (CAA) record specifies which Certificate Authorities (CAs) are allowed to issue SSL/TLS certificates for your domain. This acts as a safeguard against certificate mis-issuance.",
            remediation: "Add a CAA record to your DNS to lock down certificate issuance to your chosen provider(s). For example: '0 issue \"letsencrypt.org\"'.",
        });
    }
    if same_text(code, "SSL_HANDSHAKE_FAILED") {
        return Some(FindingDetail {
            code: "SSL_HANDSHAKE_FAILED",
            title: "TLS Handshake Failed",
            category: FindingCategory::Ssl,
            severity: Severity::Critical,
            description: "The scanner could not establish a secure TLS connection with the server. This can be caused by an invalid/missing certificate, unsupported cipher suites, or other critical server misconfigurations.",
            remediation: "Ensure a valid, trusted SSL/TLS certificate is installed on the server for the correct domain. Use an online tool like SSL Labs to diagnose TLS configuration issues.",
        });
    }
    if same_text(code, "SSL_NO_CERTIFICATE_FOUND") {
        return Some(FindingDetail {
            code: "SSL_NO_CERTIFICATE_FOUND",
            title: "No Certificate Presented",
            category: FindingCategory::Ssl,
            severity: Severity::Warning,
            description: "The TLS handshake completed, but the server did not present a certificate. Clients cannot verify who they are talking to.",
            remediation: "Configure the server to present its certificate chain during the TLS handshake.",
        });
    }
    if same_text(code, "SSL_EXPIRED") {
        return Some(FindingDetail {
            code: "SSL_EXPIRED",
            title: "SSL Certificate Expired",
            category: FindingCategory::Ssl,
            severity: Severity::Critical,
            description: "The website's SSL certificate is expired. This will cause browsers to show prominent security warnings, block access, and destroy user trust.",
            remediation: "Renew the SSL certificate immediately. Implement automated renewal processes (e.g., via Let's Encrypt / Certbot) to prevent this from happening in the future.",
        });
    }
    if same_text(code, "SSL_EXPIRING_SOON") {
        return Some(FindingDetail {
            code: "SSL_EXPIRING_SOON",
            title: "SSL Certificate Expiring Soon",
            category: FindingCategory::Ssl,
            severity: Severity::Warning,
            description: "The SSL certificate will expire in less than 30 days. This is an early warning to prevent service disruption and loss of trust.",
            remediation: "Renew the SSL certificate before it expires. If you have automated renewals, verify that the system is functioning correctly.",
        });
    }
    if same_text(code, "HEADERS_REQUEST_FAILED") {
        return Some(FindingDetail {
            code: "HEADERS_REQUEST_FAILED",
            title: "HTTP Request Failed",
            category: FindingCategory::Http,
            severity: Severity::Critical,
            description: "The scanner could not connect to the target server to check its HTTP headers. The server might be down, unreachable, or blocking automated requests.",
            remediation: "Verify that the target is online and accessible from the public internet. Check for firewalls or network issues that might be blocking the connection.",
        });
    }
    if same_text(code, "HEADERS_HSTS_MISSING") {
        return Some(FindingDetail {
            code: "HEADERS_HSTS_MISSING",
            title: "HSTS Header Missing",
            category: FindingCategory::Http,
            severity: Severity::Warning,
            description: "The HTTP Strict-Transport-Security (HSTS) header instructs browsers to only communicate with your site over HTTPS. It protects against protocol downgrade attacks and cookie hijacking.",
            remediation: "Add the 'Strict-Transport-Security' header to your web server responses. A strong value is 'max-age=31536000; includeSubDomains; preload'.",
        });
    }
    if same_text(code, "HEADERS_CSP_MISSING") {
        return Some(FindingDetail {
            code: "HEADERS_CSP_MISSING",
            title: "CSP Header Missing",
            category: FindingCategory::Http,
            severity: Severity::Warning,
            description: "Content-Security-Policy (CSP) is a powerful security layer that helps prevent attacks like Cross-Site Scripting (XSS) and data injection by defining which resources a browser is allowed to load.",
            remediation: "Implement a Content-Security-Policy header that defines trusted sources for scripts, styles, and other assets. Start with a restrictive policy and gradually open it up as needed.",
        });
    }
    if same_text(code, "HEADERS_X_FRAME_OPTIONS_MISSING") {
        return Some(FindingDetail {
            code: "HEADERS_X_FRAME_OPTIONS_MISSING",
            title: "X-Frame-Options Missing",
            category: FindingCategory::Http,
            severity: Severity::Warning,
            description: "This header protects your visitors against 'clickjacking' attacks, where an attacker loads your site in an invisible iframe to trick users into clicking on malicious content.",
            remediation: "Add the 'X-Frame-Options' header and set it to 'DENY' (no framing allowed) or 'SAMEORIGIN' (only you can frame your site).",
        });
    }
    if same_text(code, "HEADERS_X_CONTENT_TYPE_OPTIONS_MISSING") {
        return Some(FindingDetail {
            code: "HEADERS_X_CONTENT_TYPE_OPTIONS_MISSING",
            title: "X-Content-Type-Options Missing",
            category: FindingCategory::Http,
            severity: Severity::Info,
            description: "This header prevents browsers from trying to guess the content type of a file (MIME sniffing). This mitigates attacks where a file disguised as an image could be executed as a script.",
            remediation: "Add the 'X-Content-Type-Options' header and set its value to 'nosniff'. It's a simple and effective security enhancement.",
        });
    }
    None
}

/// The registry's class of each code that the rules draw.
pub proof fn lemma_registered_codes()
    ensures
        kb_class("DNS_DMARC_MISSING"@) == Some((Severity::Critical, FindingCategory::Dns)),
        kb_class("DNS_DMARC_POLICY_NONE"@) == Some((Severity::Warning, FindingCategory::Dns)),
        kb_class("DNS_SPF_MISSING"@) == Some((Severity::Warning, FindingCategory::Dns)),
        kb_class("DNS_SPF_POLICY_SOFTFAIL"@) == Some((Severity::Info, FindingCategory::Dns)),
        kb_class("DNS_SPF_POLICY_NEUTRAL"@) == Some((Severity::Info, FindingCategory::Dns)),
        kb_class("DNS_DKIM_MISSING"@) == Some((Severity::Info, FindingCategory::Dns)),
        kb_class("DNS_CAA_MISSING"@) == Some((Severity::Info, FindingCategory::Dns)),
        kb_class("SSL_HANDSHAKE_FAILED"@) == Some((Severity::Critical, FindingCategory::Ssl)),
        kb_class("SSL_NO_CERTIFICATE_FOUND"@) == Some((Severity::Warning, FindingCategory::Ssl)),
        kb_class("SSL_EXPIRED"@) == Some((Severity::Critical, FindingCategory::Ssl)),
        kb_class("SSL_EXPIRING_SOON"@) == Some((Severity::Warning, FindingCategory::Ssl)),
        kb_class("HEADERS_REQUEST_FAILED"@) == Some((Severity::Critical, FindingCategory::Http)),
        kb_class("HEADERS_HSTS_MISSING"@) == Some((Severity::Warning, FindingCategory::Http)),
        kb_class("HEADERS_CSP_MISSING"@) == Some((Severity::Warning, FindingCategory::Http)),
        kb_class("HEADERS_X_FRAME_OPTIONS_MISSING"@) == Some((Severity::Warning, FindingCategory::Http)),
        kb_class("HEADERS_X_CONTENT_TYPE_OPTIONS_MISSING"@) == Some((Severity::Info, FindingCategory::Http)),
{
    reveal_strlit("DNS_DMARC_MISSING");
    reveal_strlit("DNS_DMARC_POLICY_NONE");
    reveal_strlit("DNS_SPF_MISSING");
    reveal_strlit("DNS_SPF_POLICY_SOFTFAIL");
    reveal_strlit("DNS_SPF_POLICY_NEUTRAL");
    reveal_strlit("DNS_DKIM_MISSING");
    reveal_strlit("DNS_CAA_MISSING");
    reveal_strlit("SSL_HANDSHAKE_FAILED");
    reveal_strlit("SSL_NO_CERTIFICATE_FOUND");
    reveal_strlit("SSL_EXPIRED");
    reveal_strlit("SSL_EXPIRING_SOON");
    reveal_strlit("HEADERS_REQUEST_FAILED");
    reveal_strlit("HEADERS_HSTS_MISSING");
    reveal_strlit("HEADERS_CSP_MISSING");
    reveal_strlit("HEADERS_X_FRAME_OPTIONS_MISSING");
    reveal_strlit("HEADERS_X_CONTENT_TYPE_OPTIONS_MISSING");
    assert("DNS_DMARC_MISSING"@.len() == 17);
    assert("DNS_DMARC_POLICY_NONE"@.len() == 21);
    assert("DNS_SPF_MISSING"@.len() == 15);
    assert("DNS_SPF_POLICY_SOFTFAIL"@.len() == 23);
    assert("DNS_SPF_POLICY_NEUTRAL"@.len() == 22);
    assert("DNS_DKIM_MISSING"@.len() == 16);
    assert("DNS_CAA_MISSING"@.len() == 15);
    assert("SSL_HANDSHAKE_FAILED"@.len() == 20);
    assert("SSL_NO_CERTIFICATE_FOUND"@.len() == 24);
    assert("SSL_EXPIRED"@.len() == 11);
    assert("SSL_EXPIRING_SOON"@.len() == 17);
    assert("HEADERS_REQUEST_FAILED"@.len() == 22);
    assert("HEADERS_HSTS_MISSING"@.len() == 20);
    assert("HEADERS_CSP_MISSING"@.len() == 19);
    assert("HEADERS_X_FRAME_OPTIONS_MISSING"@.len() == 31);
    assert("HEADERS_X_CONTENT_TYPE_OPTIONS_MISSING"@.len() == 38);
    assert("DNS_CAA_MISSING"@[4] != "DNS_SPF_MISSING"@[4]);
    assert("SSL_EXPIRING_SOON"@[0] != "DNS_DMARC_MISSING"@[0]);
    assert("HEADERS_REQUEST_FAILED"@[0] != "DNS_SPF_POLICY_NEUTRAL"@[0]);
    assert("HEADERS_HSTS_MISSING"@[0] != "SSL_HANDSHAKE_FAILED"@[0]);
}

/// Every finding that the DNS rules draw is registered, under the DNS
/// category, with the severity it carries.
pub proof fn lemma_dns_findings_registered(r: DnsResults)
    ensures
        forall|i: int| 0 <= i < dns_findings(r).len() ==> kb_class(#[trigger] dns_findings(r)[i].1) == Some(
            (dns_findings(r)[i].0, FindingCategory::Dns),
        ),
{
    lemma_registered_codes();
}

/// Every finding that the TLS rules draw is registered, under the TLS
/// category, with the severity it carries.
pub proof fn lemma_ssl_findings_registered(o: Outcome<SslData>)
    ensures
        forall|i: int| 0 <= i < ssl_findings(o).len() ==> kb_class(#[trigger] ssl_findings(o)[i].1) == Some(
            (ssl_findings(o)[i].0, FindingCategory::Ssl),
        ),
{
    lemma_registered_codes();
}

/// Every finding that the header rules draw is registered, under the HTTP
/// category, with the severity it carries.
pub proof fn lemma_headers_findings_registered(r: HeadersResults)
    ensures
        forall|i: int| 0 <= i < headers_findings(r).len() ==> kb_class(#[trigger] headers_findings(r)[i].1) == Some(
            (headers_findings(r)[i].0, FindingCategory::Http),
        ),
{
    lemma_registered_codes();
}

} // verus!
