//! The agent's configuration.
use std::path::PathBuf;
use vstd::prelude::*;

verus! {

/// Settings of the substation agent.
#[derive(Debug, Clone)]
pub struct AgentConfig {
    pub station_id: String,
    pub device_id: String,
    pub inbox_dir: PathBuf,
    pub queue_dir: PathBuf,
    pub sent_dir: PathBuf,
    pub error_dir: PathBuf,
    pub spool_dir: PathBuf,
    pub log_dir: PathBuf,
    pub state_dir: PathBuf,
    pub server_url: String,
    pub client_cert_pem: PathBuf,
    pub client_key_pem: PathBuf,
    pub ca_bundle_pem: PathBuf,
    pub max_retries: u32,
    pub retry_initial_backoff_seconds: u64,
    pub retry_max_backoff_seconds: u64,
    pub upload_timeout_seconds: u64,
    pub watch_debounce_ms: u64,
    pub retention: RetentionConfig,
    pub disk: DiskConfig,
    pub renewal: RenewalConfig,
}

/// Time-based retention of the agent's local areas.
#[derive(Debug, Clone)]
pub struct RetentionConfig {
    /// Days to keep events in sent/ when the disk is filling up.
    pub sent_retention_days: u32,
    /// Days to keep events in sent/ while the disk allows it.
    pub sent_retention_max_days: u32,
    /// Days to keep events in error/.
    pub error_retention_days: u32,
    /// Days to keep log files.
    pub log_retention_days: u32,
    /// Minutes between cleanup cycles.
    pub cleanup_interval_minutes: u64,
}

/// Disk watermarks of the agent's host.
#[derive(Debug, Clone)]
pub struct DiskConfig {
    /// The drive to watch (for example "D:").
    pub drive: String,
    /// Usage percentage that raises an alert.
    pub warn_threshold_pct: u64,
    /// Usage percentage that reduces retention to its configured minimum.
    pub reduce_retention_threshold_pct: u64,
    /// Usage percentage that forces aggressive cleanup.
    pub force_cleanup_threshold_pct: u64,
    /// Free space, in MiB, below which cleanup is forced.
    pub min_free_mb: u64,
}

/// Automatic renewal of the agent's client certificate.
#[derive(Debug, Clone)]
pub struct RenewalConfig {
    /// Base URL of the PKI server.
    pub pki_server_url: String,
    /// Days before expiry from which renewal starts.
    pub renewal_days_before_expiry: i64,
    /// Hours between checks.
    pub check_interval_hours: u64,
    /// Where the new private key is saved.
    pub new_key_path: PathBuf,
    /// Where the new certificate is saved.
    pub new_cert_path: PathBuf,
}

} // verus!
