//! The PKI server's configuration.
use std::path::PathBuf;
use vstd::prelude::*;

verus! {

/// Settings of the PKI server.
#[derive(Debug, Clone)]
pub struct PkiConfig {
    pub listen_addr: String,
    /// The intermediate CA's certificate (public, sent in the chain).
    pub ca_cert_pem: PathBuf,
    /// The intermediate CA's private key.
    pub ca_key_pem: PathBuf,
    /// The PKI server's own TLS certificate.
    pub server_cert_pem: PathBuf,
    /// The PKI server's own TLS key.
    pub server_key_pem: PathBuf,
    /// The CA chain that client certificates are checked against.
    pub ca_bundle_pem: PathBuf,
    /// The stations allowed to renew (their common names).
    pub allowed_station_ids: Vec<String>,
    /// The most days a certificate may have left and still be renewed.
    pub renewal_window_days_max: i64,
    /// Days of validity of issued certificates.
    pub issued_cert_validity_days: u32,
    pub audit_dir: PathBuf,
    pub log_dir: PathBuf,
}

} // verus!
