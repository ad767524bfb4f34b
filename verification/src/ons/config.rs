//! The receiving server's configuration.
use std::path::PathBuf;
use vstd::prelude::*;

verus! {

/// Settings of the receiving server.
#[derive(Debug, Clone)]
pub struct ServerConfig {
    pub listen_addr: String,
    pub server_cert_pem: PathBuf,
    pub server_key_pem: PathBuf,
    pub ca_bundle_pem: PathBuf,
    pub staging_dir: PathBuf,
    pub repository_dir: PathBuf,
    pub quarantine_dir: PathBuf,
    pub audit_dir: PathBuf,
    pub log_dir: PathBuf,
    pub max_upload_size_mb: u64,
    pub allowed_station_ids: Vec<String>,
    pub upload_timeout_seconds: u64,
    pub rate_limit: RateLimitConfig,
}

/// Upload rate limits.
#[derive(Debug, Clone)]
pub struct RateLimitConfig {
    /// Most uploads per minute per station.
    pub max_uploads_per_minute: u32,
    /// Largest burst.
    pub burst_size: u32,
}

} // verus!
