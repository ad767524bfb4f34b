//! The receiving server: upload checks, hash verification, duplicate
//! detection and the quarantine decision.
pub mod api;
pub mod audit;
pub mod config;
pub mod manifest_json;
pub mod rate;
pub mod storage;
pub mod tls;
