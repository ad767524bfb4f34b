//! The receiving server's audit events.
use std::path::PathBuf;
use vstd::prelude::*;

verus! {

/// An event of the receiving server's append-only audit trail.
#[derive(Debug)]
pub enum AuditEvent {
    UploadReceived {
        upload_id: String,
        event_id: String,
        station_id: String,
        client_cn: String,
        file_count: usize,
        total_bytes: u64,
    },
    UploadAccepted { upload_id: String, event_id: String, station_id: String, stored_path: String },
    UploadRejected { upload_id: String, event_id: String, station_id: String, reason: String },
    UploadQuarantined { upload_id: String, event_id: String, station_id: String, reason: String },
    AuthRejected { client_ip: String, reason: String },
    DuplicateDetected { upload_id: String, event_id: String, station_id: String },
}

/// Writes the audit trail, one file per day in `audit_dir`.
pub struct AuditLogger {
    pub audit_dir: PathBuf,
}

impl AuditLogger {
    /// A logger writing into `audit_dir`.
    pub fn new(audit_dir: PathBuf) -> (r: Self)
        ensures
            r.audit_dir == audit_dir,
    {
        AuditLogger { audit_dir }
    }
}

} // verus!
