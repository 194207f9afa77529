//! Security-posture scanning engine: turns raw DNS, TLS, HTTP-header and
//! page-content observations about a domain into severity-tagged findings,
//! a technology inventory and a single risk score.
pub mod models;
pub mod text;
pub mod knowledge_base;
pub mod dns;
pub mod tls;
pub mod headers;
pub mod fingerprint;
pub mod scoring;
pub mod session;
pub mod paths;
