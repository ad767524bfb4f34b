//! The server's storage rules: duplicate detection in the repository, and
//! the hash check that decides between the repository and quarantine.
use crate::digest::{sha256_hex, spec_sha256_hex};
use crate::substation::manifest::{FileData, spec_file_entry};
use crate::ons::audit::{AuditEvent, AuditLogger};
use crate::text::{str_eq, push_str, to_owned_string};
use crate::paths::path_join;
use crate::clock::UtcTimestamp;
use std::path::PathBuf;
use vstd::prelude::*;

verus! {

/// One stored file, with its declared and verified digests.
#[derive(Debug)]
pub struct StoredFile {
    pub name: String,
    pub sha256_declared: String,
    pub sha256_verified: String,
    pub size_bytes: u64,
    pub hash_ok: bool,
}

/// One uploaded file with the digest that the manifest declares for it.
pub struct UploadFile {
    pub name: String,
    pub data: Vec<u8>,
    pub declared_sha256: String,
}

/// The outcome of checking an upload's files.
pub struct UploadCheck {
    pub files: Vec<StoredFile>,
    /// Every file's digest matched its declared digest.
    pub all_hashes_ok: bool,
    pub total_bytes: u64,
}

/// Where an upload goes.
#[derive(Clone, Copy, Debug, PartialEq, Eq, Structural)]
pub enum UploadDisposition {
    /// Into the repository, under station, date and event.
    Repository,
    /// Into quarantine: some file's digest did not match.
    Quarantine,
}

/// The record written beside an accepted event: who sent it, when it was
/// received, its checked files and where it is stored.
pub struct UploadRecord {
    pub upload_id: String,
    pub event_id: String,
    pub station_id: String,
    pub received_at_utc: UtcTimestamp,
    pub files: Vec<StoredFile>,
    pub total_bytes: u64,
    pub repository_path: String,
}

/// Stores uploads: staging, repository and quarantine areas, and the audit trail.
pub struct StorageManager {
    pub staging_dir: PathBuf,
    pub repository_dir: PathBuf,
    pub quarantine_dir: PathBuf,
    pub audit: AuditLogger,
}

/// Some event stored in the repository has exactly this id.
pub open spec fn spec_is_duplicate(stored_ids: Seq<String>, event_id: Seq<char>) -> bool {
    exists|i: int| 0 <= i < stored_ids.len() && #[trigger] stored_ids[i]@ == event_id
}

/// The stored record of an uploaded file: its digest is computed and
/// compared with the declared one.
pub open spec fn spec_stored(f: UploadFile, s: StoredFile) -> bool {
    &&& s.name@ == f.name@
    &&& s.sha256_declared@ == f.declared_sha256@
    &&& s.sha256_verified@ == spec_sha256_hex(f.data@)
    &&& s.size_bytes == f.data@.len()
    &&& s.hash_ok == (f.declared_sha256@ == spec_sha256_hex(f.data@))
}

/// The total size of the uploaded files.
pub open spec fn upload_size(files: Seq<UploadFile>) -> nat
    decreases files.len(),
{
    if files.len() == 0 {
        0
    } else {
        upload_size(files.drop_last()) + files.last().data@.len()
    }
}

/// Where an upload goes: into quarantine where any file's digest differs
/// from its declared digest, else into the repository.
pub open spec fn spec_disposition(files: Seq<UploadFile>) -> UploadDisposition {
    if forall|i: int| 0 <= i < files.len() ==> #[trigger] files[i].declared_sha256@ == spec_sha256_hex(files[i].data@) {
        UploadDisposition::Repository
    } else {
        UploadDisposition::Quarantine
    }
}

/// The reason recorded for a quarantined upload.
pub open spec fn quarantine_reason() -> Seq<char> {
    "Hash mismatch em um ou mais arquivos"@
}

/// The error returned for a quarantined upload.
pub open spec fn quarantine_error() -> Seq<char> {
    "Hash mismatch: upload movido para quarentena"@
}

impl StorageManager {
    /// A storage manager over the three areas, auditing to `audit`.
    pub fn new(staging_dir: PathBuf, repository_dir: PathBuf, quarantine_dir: PathBuf, audit: AuditLogger) -> (r: Self)
        ensures
            r.staging_dir == staging_dir,
            r.repository_dir == repository_dir,
            r.quarantine_dir == quarantine_dir,
            r.audit == audit,
    {
        StorageManager { staging_dir, repository_dir, quarantine_dir, audit }
    }

    /// Whether an event was already received: one of the events stored in
    /// the repository (the ids of its `station/date/event` directories, as
    /// listing it gave them) is this very event.
    pub fn is_duplicate(&self, stored_ids: &[String], event_id: &str) -> (r: bool)
        ensures
            r == spec_is_duplicate(stored_ids@, event_id@),
    {
        let mut i: usize = 0;
        while i < stored_ids.len()
            invariant
                i <= stored_ids@.len(),
                forall|j: int| 0 <= j < i ==> #[trigger] stored_ids@[j]@ != event_id@,
            decreases stored_ids@.len() - i,
        {
            if str_eq(stored_ids[i].as_str(), event_id) {
                return true;
            }
            i = i + 1;
        }
        false
    }

    /// Where an accepted event is stored: `station/date/event` under the
    /// repository.
    pub fn repository_path(&self, station_id: &str, date: &str, event_id: &str) -> PathBuf {
        let station_dir = path_join(&self.repository_dir, station_id);
        let date_dir = path_join(&station_dir, date);
        path_join(&date_dir, event_id)
    }

    /// The record of an event accepted into the repository at
    /// `repository_path`: the upload's ids, the time it was received, and
    /// the files and total size that the hash check found.
    pub fn upload_record(
        upload_id: &str,
        event_id: &str,
        station_id: &str,
        received_at_utc: UtcTimestamp,
        check: UploadCheck,
        repository_path: &str,
    ) -> (r: UploadRecord)
        ensures
            r.upload_id@ == upload_id@,
            r.event_id@ == event_id@,
            r.station_id@ == station_id@,
            r.received_at_utc == received_at_utc,
            r.files@ == check.files@,
            r.total_bytes == check.total_bytes,
            r.repository_path@ == repository_path@,
    {
        UploadRecord {
            upload_id: to_owned_string(upload_id),
            event_id: to_owned_string(event_id),
            station_id: to_owned_string(station_id),
            received_at_utc,
            files: check.files,
            total_bytes: check.total_bytes,
            repository_path: to_owned_string(repository_path),
        }
    }

    /// Checks an upload's files: computes each one's SHA-256, compares it
    /// with the declared digest, and totals the sizes.
    pub fn check_files(&self, files: &Vec<UploadFile>) -> (r: UploadCheck)
        requires
            upload_size(files@) <= u64::MAX,
        ensures
            r.files@.len() == files@.len(),
            forall|i: int| 0 <= i < files@.len() ==> spec_stored(#[trigger] files@[i], r.files@[i]),
            r.all_hashes_ok == (spec_disposition(files@) == UploadDisposition::Repository),
            r.total_bytes == upload_size(files@),
    {
        let mut out: Vec<StoredFile> = Vec::new();
        let mut all_ok = true;
        let mut total: u64 = 0;
        let mut i: usize = 0;
        while i < files.len()
            invariant
                i <= files@.len(),
                out@.len() == i,
                upload_size(files@) <= u64::MAX,
                forall|j: int| 0 <= j < i ==> spec_stored(#[trigger] files@[j], out@[j]),
                all_ok == (forall|j: int| 0 <= j < i ==> #[trigger] files@[j].declared_sha256@ == spec_sha256_hex(files@[j].data@)),
                total as nat == upload_size(files@.take(i as int)),
            decreases files@.len() - i,
        {
            let f = &files[i];
            let verified = sha256_hex(f.data.as_slice());
            let ok = str_eq(f.declared_sha256.as_str(), verified.as_str());
            proof {
                assert(files@.take(i + 1).drop_last() =~= files@.take(i as int));
                lemma_upload_size_prefix(files@, i + 1);
            }
            total = total + f.data.len() as u64;
            out.push(StoredFile {
                name: to_owned_string(f.name.as_str()),
                sha256_declared: to_owned_string(f.declared_sha256.as_str()),
                sha256_verified: verified,
                size_bytes: f.data.len() as u64,
                hash_ok: ok,
            });
            all_ok = all_ok && ok;
            i = i + 1;
        }
        assert(files@.take(i as int) =~= files@);
        UploadCheck { files: out, all_hashes_ok: all_ok, total_bytes: total }
    }

    /// Where a checked upload goes.
    pub fn disposition(check: &UploadCheck) -> (r: UploadDisposition)
        ensures
            r == if check.all_hashes_ok { UploadDisposition::Repository } else { UploadDisposition::Quarantine },
    {
        if check.all_hashes_ok { UploadDisposition::Repository } else { UploadDisposition::Quarantine }
    }

    /// The audit event of a quarantined upload.
    pub fn quarantined_event(upload_id: &str, event_id: &str, station_id: &str) -> (e: AuditEvent)
        ensures
            e matches AuditEvent::UploadQuarantined { upload_id: u, event_id: ev, station_id: s, reason }
                && u@ == upload_id@ && ev@ == event_id@ && s@ == station_id@ && reason@ == quarantine_reason(),
    {
        let mut reason = String::new();
        push_str(&mut reason, "Hash mismatch em um ou mais arquivos");
        AuditEvent::UploadQuarantined {
            upload_id: to_owned_string(upload_id),
            event_id: to_owned_string(event_id),
            station_id: to_owned_string(station_id),
            reason,
        }
    }

    /// The error of a quarantined upload.
    pub fn quarantined_error() -> (e: String)
        ensures
            e@ == quarantine_error(),
    {
        let mut e = String::new();
        push_str(&mut e, "Hash mismatch: upload movido para quarentena");
        e
    }

    /// The audit event of an upload stored in the repository.
    pub fn accepted_event(upload_id: &str, event_id: &str, station_id: &str, stored_path: &str) -> (e: AuditEvent)
        ensures
            e matches AuditEvent::UploadAccepted { upload_id: u, event_id: ev, station_id: s, stored_path: p }
                && u@ == upload_id@ && ev@ == event_id@ && s@ == station_id@ && p@ == stored_path@,
    {
        AuditEvent::UploadAccepted {
            upload_id: to_owned_string(upload_id),
            event_id: to_owned_string(event_id),
            station_id: to_owned_string(station_id),
            stored_path: to_owned_string(stored_path),
        }
    }
}

/// The size of a prefix of the upload is at most the whole.
pub proof fn lemma_upload_size_prefix(s: Seq<UploadFile>, k: int)
    requires
        0 <= k <= s.len(),
    ensures
        upload_size(s.take(k)) <= upload_size(s),
    decreases s.len(),
{
    if k < s.len() {
        assert(s.drop_last().take(k) =~= s.take(k));
        lemma_upload_size_prefix(s.drop_last(), k);
    } else {
        assert(s.take(k) =~= s);
    }
}

/// Once an event is stored, an upload of the same event id is a duplicate;
/// storing it changes nothing for any other id.
pub proof fn law_stored_event_is_found_again(stored: Seq<String>, event: String, other: Seq<char>)
    ensures
        spec_is_duplicate(stored.push(event), event@),
        other != event@ ==> (spec_is_duplicate(stored.push(event), other) <==> spec_is_duplicate(stored, other)),
{
    assert(stored.push(event)[stored.len() as int]@ == event@);
    if other != event@ {
        if spec_is_duplicate(stored.push(event), other) {
            let i = choose|i: int| 0 <= i < stored.push(event).len() && #[trigger] stored.push(event)[i]@ == other;
            assert(stored[i]@ == other);
        }
        if spec_is_duplicate(stored, other) {
            let i = choose|i: int| 0 <= i < stored.len() && #[trigger] stored[i]@ == other;
            assert(stored.push(event)[i]@ == other);
        }
    }
}

/// An upload goes to the repository only where every file's digest matches
/// its declared digest; a single mismatch sends it to quarantine.
pub proof fn law_mismatch_quarantines(files: Seq<UploadFile>, i: int)
    requires
        0 <= i < files.len(),
        files[i].declared_sha256@ != spec_sha256_hex(files[i].data@),
    ensures
        spec_disposition(files) == UploadDisposition::Quarantine,
{
}

/// A file whose declared digest is the one the agent put in its manifest
/// entry, and whose contents arrive unchanged, passes the server's check.
pub proof fn law_agent_digest_verifies(f: FileData, u: UploadFile)
    requires
        u.data@ == f.data@,
        u.declared_sha256@ == spec_file_entry(f).1,
    ensures
        u.declared_sha256@ == spec_sha256_hex(u.data@),
{
}

} // verus!
