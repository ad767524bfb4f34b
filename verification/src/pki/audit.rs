//! The PKI server's audit events.
use std::path::PathBuf;
use vstd::prelude::*;

verus! {

/// An event of the PKI server's append-only audit trail.
#[derive(Debug)]
pub enum PkiAuditEvent {
    RenewalRequested {
        request_id: String,
        station_id: String,
        client_cn: String,
        client_cert_expiry_utc: String,
        days_remaining: i64,
    },
    RenewalIssued {
        request_id: String,
        station_id: String,
        client_cn: String,
        new_cert_expiry_utc: String,
    },
    RenewalRejected {
        request_id: String,
        station_id: String,
        client_cn: String,
        reason: String,
    },
    AuthRejected {
        client_ip: String,
        reason: String,
    },
}

/// Writes the PKI audit trail, one file per day in `audit_dir`.
pub struct PkiAuditLogger {
    pub audit_dir: PathBuf,
}

impl PkiAuditLogger {
    /// A logger writing into `audit_dir`.
    pub fn new(audit_dir: PathBuf) -> (r: Self)
        ensures
            r.audit_dir == audit_dir,
    {
        PkiAuditLogger { audit_dir }
    }
}

} // verus!
