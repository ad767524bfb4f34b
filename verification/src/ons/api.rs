//! The upload endpoint's decisions: which uploads are refused, recognized as
//! duplicates or stored, with what status, body and audit events.
use crate::ons::audit::{AuditEvent, AuditLogger};
use crate::ons::config::ServerConfig;
use crate::ons::rate::{after_request, spec_admits, RateLimiter, StationBucket};
use crate::ons::manifest_json::{parse_manifest_files, spec_manifest_files, ManifestFileRef, ref_view, refs_view};
use crate::ons::storage::{StorageManager, UploadFile, spec_is_duplicate};
use crate::pki::ca::{is_allowed, station_allowed};
use crate::substation::sender::{spec_ack, UploadAck};
use crate::text::{push_str, str_eq, to_owned_string, opt_view};
use std::sync::Arc;
use vstd::prelude::*;

verus! {

/// What the server's handlers share.
pub struct AppState {
    pub config: Arc<ServerConfig>,
    pub storage: Arc<StorageManager>,
    pub audit: Arc<AuditLogger>,
}

/// The body of an upload's answer.
pub struct UploadResponse {
    pub upload_id: String,
    pub status: String,
    pub hash_verified: bool,
    pub stored_path: Option<String>,
    pub message: Option<String>,
}

/// The body of the health check.
pub struct HealthResponse {
    pub status: String,
    pub version: &'static str,
}

/// One file part of an upload form.
pub struct UploadedPart {
    pub name: String,
    pub data: Vec<u8>,
}

/// The fields of an upload form, each one where it was present and
/// readable as text, and its file parts in order.
pub struct UploadFields {
    pub station_id: Option<String>,
    pub device_id: Option<String>,
    pub event_id: Option<String>,
    pub timestamp_utc: Option<String>,
    pub manifest: Option<String>,
    pub files: Vec<UploadedPart>,
}

/// What to do with an upload once its form is read.
pub enum UploadStep {
    /// Answer now, after writing the audit events.
    Respond { audit: Vec<AuditEvent>, status: u16, body: UploadResponse },
    /// Write the audit event, then store the files; the answer follows
    /// from how storing went.
    Store {
        received: AuditEvent,
        event_id: String,
        station_id: String,
        manifest_json: String,
        files: Vec<UploadFile>,
    },
}

/// A form field that is present and not empty.
pub open spec fn present(f: Option<String>) -> Option<Seq<char>> {
    match f {
        Some(s) => if s@.len() > 0 { Some(s@) } else { None },
        None => None,
    }
}

/// The field's text, where it is present.
pub open spec fn field_text(f: Option<String>) -> Seq<char> {
    match f {
        Some(s) => s@,
        None => Seq::empty(),
    }
}

/// The refusal for missing fields, in the order they are checked.
pub open spec fn spec_missing_field(fields: UploadFields) -> Option<Seq<char>> {
    if present(fields.station_id) is None {
        Some("station_id ausente"@)
    } else if present(fields.event_id) is None {
        Some("event_id ausente"@)
    } else if present(fields.manifest) is None {
        Some("manifest ausente"@)
    } else {
        None
    }
}

/// The digest that the manifest declares for a file: that of the first
/// entry with the file's name (empty where that entry has none), or empty
/// where no entry has the name or the manifest lists no files.
pub open spec fn spec_declared(refs: Option<Seq<(Option<Seq<char>>, Option<Seq<char>>)>>, name: Seq<char>) -> Seq<char> {
    match refs {
        None => Seq::empty(),
        Some(rs) => first_declared(rs, name),
    }
}

/// The digest of the first entry named `name`.
pub open spec fn first_declared(rs: Seq<(Option<Seq<char>>, Option<Seq<char>>)>, name: Seq<char>) -> Seq<char>
    decreases rs.len(),
{
    if rs.len() == 0 {
        Seq::empty()
    } else if rs[0].0 == Some(name) {
        match rs[0].1 {
            Some(h) => h,
            None => Seq::empty(),
        }
    } else {
        first_declared(rs.drop_first(), name)
    }
}

/// The total size of the file parts.
pub open spec fn parts_size(parts: Seq<UploadedPart>) -> nat
    decreases parts.len(),
{
    if parts.len() == 0 {
        0
    } else {
        parts_size(parts.drop_last()) + parts.last().data@.len()
    }
}

/// The step is an immediate answer with this status and body, writing
/// exactly `audit_len` audit events.
pub open spec fn answers(step: UploadStep, status: u16, upload_id: Seq<char>, kind: Seq<char>, hash_verified: bool, message: Seq<char>, audit_len: nat) -> bool {
    match step {
        UploadStep::Respond { audit, status: s, body } => s == status && body.upload_id@ == upload_id
            && body.status@ == kind && body.hash_verified == hash_verified && body.stored_path is None
            && opt_view(body.message) == Some(message) && audit@.len() == audit_len,
        UploadStep::Store { .. } => false,
    }
}

/// The answer's one audit event records the refused station and why.
pub open spec fn audits_refusal(step: UploadStep, upload_id: Seq<char>, event_id: Seq<char>, station_id: Seq<char>, why: Seq<char>) -> bool {
    match step {
        UploadStep::Respond { audit, .. } => audit@.len() == 1 && match audit@[0] {
            AuditEvent::UploadRejected { upload_id: u, event_id: e, station_id: s, reason } =>
                u@ == upload_id && e@ == event_id && s@ == station_id && reason@ == why,
            _ => false,
        },
        UploadStep::Store { .. } => false,
    }
}

/// The answer's one audit event records the duplicate.
pub open spec fn audits_duplicate(step: UploadStep, upload_id: Seq<char>, event_id: Seq<char>, station_id: Seq<char>) -> bool {
    match step {
        UploadStep::Respond { audit, .. } => audit@.len() == 1 && match audit@[0] {
            AuditEvent::DuplicateDetected { upload_id: u, event_id: e, station_id: s } =>
                u@ == upload_id && e@ == event_id && s@ == station_id,
            _ => false,
        },
        UploadStep::Store { .. } => false,
    }
}

/// The digest declared for a file.
pub fn declared_sha256(refs: &Option<Vec<ManifestFileRef>>, name: &str) -> (r: String)
    ensures
        r@ == spec_declared(refs_view(*refs), name@),
{
    match refs {
        None => String::new(),
        Some(v) => {
            let ghost rs = v@.map_values(|x: ManifestFileRef| ref_view(x));
            let mut i: usize = 0;
            assert(rs.skip(0) =~= rs);
            assert(refs_view(*refs) == Some(rs));
            while i < v.len()
                invariant
                    i <= v@.len(),
                    rs == v@.map_values(|x: ManifestFileRef| ref_view(x)),
                    refs_view(*refs) == Some(rs),
                    first_declared(rs.skip(i as int), name@) == first_declared(rs, name@),
                decreases v@.len() - i,
            {
                assert(rs.skip(i as int)[0] == ref_view(v@[i as int]));
                assert(rs.skip(i as int).drop_first() =~= rs.skip(i + 1));
                let named = match &v[i].name {
                    Some(n) => str_eq(n.as_str(), name),
                    None => false,
                };
                if named {
                    assert(rs.skip(i as int)[0].0 == Some(name@));
                    assert(first_declared(rs.skip(i as int), name@) == match rs.skip(i as int)[0].1 {
                        Some(h) => h,
                        None => Seq::<char>::empty(),
                    });
                    let r = match &v[i].sha256 {
                        Some(h) => to_owned_string(h.as_str()),
                        None => String::new(),
                    };
                    assert(r@ == first_declared(rs, name@));
                    return r;
                }
                i = i + 1;
            }
            assert(rs.skip(i as int).len() == 0);
            String::new()
        },
    }
}

/// An answer body.
pub fn response(upload_id: &str, kind: &str, hash_verified: bool, stored_path: Option<String>, message: Option<String>) -> (r: UploadResponse)
    ensures
        r.upload_id@ == upload_id@,
        r.status@ == kind@,
        r.hash_verified == hash_verified,
        r.stored_path == stored_path,
        r.message == message,
{
    UploadResponse { upload_id: to_owned_string(upload_id), status: to_owned_string(kind), hash_verified, stored_path, message }
}

/// A refusal: status "rejected", hashes not verified, and the reason.
pub fn reject(upload_id: &str, status: u16, reason: &str) -> (r: (u16, UploadResponse))
    ensures
        r.0 == status,
        r.1.upload_id@ == upload_id@,
        r.1.status@ == "rejected"@,
        !r.1.hash_verified,
        r.1.stored_path is None,
        opt_view(r.1.message) == Some(reason@),
{
    (status, response(upload_id, "rejected", false, None, Some(to_owned_string(reason))))
}

/// Whether a form field is present and not empty.
fn is_present(f: &Option<String>) -> (r: bool)
    ensures
        r == (present(*f) is Some),
{
    match f {
        Some(s) => !s.as_str().is_empty(),
        None => false,
    }
}

/// The refusal of a station that uploads faster than its rate limit.
pub open spec fn rate_limited_message() -> Seq<char> {
    "Limite de uploads excedido"@
}

/// The upload has its fields, comes from an allowed station, and is within
/// the station's rate limit at `now_ms`.
pub open spec fn admitted(config: ServerConfig, fields: UploadFields, buckets: Seq<StationBucket>, now_ms: u64) -> bool {
    &&& spec_missing_field(fields) is None
    &&& is_allowed(config.allowed_station_ids@, field_text(fields.station_id))
    &&& spec_admits(buckets, field_text(fields.station_id), now_ms as nat, config.rate_limit)
}

/// The server's answers confirm the hashes exactly when they accept: the
/// status is 200 (accepted, or already held) exactly where `hash_verified`
/// is set.
pub open spec fn server_answer(status: u16, body: UploadResponse) -> bool {
    body.hash_verified == (status == 200)
}

/// What the agent reads of an answer: whether its status is a success
/// (2xx), its `hash_verified` member and its `upload_id` member.
pub open spec fn carries(ack: UploadAck, status: u16, body: UploadResponse) -> bool {
    &&& ack.success == (200 <= status <= 299)
    &&& ack.hash_verified == Some(body.hash_verified)
    &&& ack.upload_id matches Some(id) && id@ == body.upload_id@
}

/// Decides what to do with an upload form. A form missing its station,
/// event or manifest is refused with 400; a station off the allowlist is
/// refused with 403 and audited; an allowed station asks the rate limiter
/// for an upload at `now_ms` (milliseconds on the server's clock), and one
/// over its budget is refused with 429 and audited; an event whose id is
/// one of `stored_event_ids` (the events already in the repository) is
/// answered as a duplicate, with nothing stored; a manifest that is not
/// JSON is refused with 400; any other upload goes on to storage, each file
/// with the digest its manifest declares.
#[verifier::spinoff_prover]
#[verifier::rlimit(40)]
pub fn check_upload(config: &ServerConfig, storage: &StorageManager, limiter: &mut RateLimiter, now_ms: u64, fields: UploadFields, upload_id: &str, stored_event_ids: &[String]) -> (step: UploadStep)
    requires
        parts_size(fields.files@) <= u64::MAX,
    ensures
        (spec_missing_field(fields) matches Some(m) ==> answers(step, 400, upload_id@, "rejected"@, false, m, 0)),
        (spec_missing_field(fields) is None && !is_allowed(config.allowed_station_ids@, field_text(fields.station_id))
            ==> answers(step, 403, upload_id@, "rejected"@, false, "Estação não autorizada"@, 1)),
        (admitted(*config, fields, old(limiter).buckets@, now_ms)
            && spec_is_duplicate(stored_event_ids@, field_text(fields.event_id))
            ==> answers(step, 200, upload_id@, "duplicate"@, true, "Evento já recebido anteriormente"@, 1)),
        (admitted(*config, fields, old(limiter).buckets@, now_ms)
            && !spec_is_duplicate(stored_event_ids@, field_text(fields.event_id))
            && spec_manifest_files(field_text(fields.manifest)) is Err
            ==> answers(step, 400, upload_id@, "rejected"@, false, "Manifesto inválido: "@ + spec_manifest_files(field_text(fields.manifest))->Err_0, 0)),
        (spec_missing_field(fields) is None && !is_allowed(config.allowed_station_ids@, field_text(fields.station_id))
            ==> audits_refusal(step, upload_id@, field_text(fields.event_id), field_text(fields.station_id), "Estação não autorizada"@)),
        (spec_missing_field(fields) is Some || !is_allowed(config.allowed_station_ids@, field_text(fields.station_id))
            ==> final(limiter).buckets@ == old(limiter).buckets@),
        (spec_missing_field(fields) is None && is_allowed(config.allowed_station_ids@, field_text(fields.station_id))
            ==> after_request(old(limiter).buckets@, final(limiter).buckets@, field_text(fields.station_id), now_ms as nat, config.rate_limit)),
        (spec_missing_field(fields) is None && is_allowed(config.allowed_station_ids@, field_text(fields.station_id))
            && !spec_admits(old(limiter).buckets@, field_text(fields.station_id), now_ms as nat, config.rate_limit)
            ==> answers(step, 429, upload_id@, "rejected"@, false, rate_limited_message(), 1)
                && audits_refusal(step, upload_id@, field_text(fields.event_id), field_text(fields.station_id), rate_limited_message())),
        (admitted(*config, fields, old(limiter).buckets@, now_ms)
            && spec_is_duplicate(stored_event_ids@, field_text(fields.event_id))
            ==> audits_duplicate(step, upload_id@, field_text(fields.event_id), field_text(fields.station_id))),
        (admitted(*config, fields, old(limiter).buckets@, now_ms)
            && !spec_is_duplicate(stored_event_ids@, field_text(fields.event_id))
            && spec_manifest_files(field_text(fields.manifest)) is Ok ==> step is Store),
        (step is Store ==> stores_declared(step, fields, upload_id@)),
        (step matches UploadStep::Respond { status, body, .. } ==> server_answer(status, body)),
{
    let UploadFields { station_id, device_id: _, event_id, timestamp_utc: _, manifest, files } = fields;
    let ghost parts = files@;
    if !is_present(&station_id) {
        let (status, body) = reject(upload_id, 400, "station_id ausente");
        return UploadStep::Respond { audit: Vec::new(), status, body };
    }
    if !is_present(&event_id) {
        let (status, body) = reject(upload_id, 400, "event_id ausente");
        return UploadStep::Respond { audit: Vec::new(), status, body };
    }
    if !is_present(&manifest) {
        let (status, body) = reject(upload_id, 400, "manifest ausente");
        return UploadStep::Respond { audit: Vec::new(), status, body };
    }
    let station_id = station_id.unwrap();
    let event_id = event_id.unwrap();
    let manifest_json = manifest.unwrap();
    if !station_allowed(config.allowed_station_ids.as_slice(), station_id.as_str()) {
        let mut reason = String::new();
        push_str(&mut reason, "Estação não autorizada");
        let mut audit = Vec::new();
        audit.push(AuditEvent::UploadRejected {
            upload_id: to_owned_string(upload_id),
            event_id: to_owned_string(event_id.as_str()),
            station_id: to_owned_string(station_id.as_str()),
            reason,
        });
        let (status, body) = reject(upload_id, 403, "Estação não autorizada");
        return UploadStep::Respond { audit, status, body };
    }
    if !limiter.request_upload(station_id.as_str(), now_ms, &config.rate_limit) {
        let mut reason = String::new();
        push_str(&mut reason, "Limite de uploads excedido");
        let mut audit = Vec::new();
        audit.push(AuditEvent::UploadRejected {
            upload_id: to_owned_string(upload_id),
            event_id: to_owned_string(event_id.as_str()),
            station_id: to_owned_string(station_id.as_str()),
            reason,
        });
        let (status, body) = reject(upload_id, 429, "Limite de uploads excedido");
        return UploadStep::Respond { audit, status, body };
    }
    if storage.is_duplicate(stored_event_ids, event_id.as_str()) {
        let mut audit = Vec::new();
        audit.push(AuditEvent::DuplicateDetected {
            upload_id: to_owned_string(upload_id),
            event_id: to_owned_string(event_id.as_str()),
            station_id: to_owned_string(station_id.as_str()),
        });
        let mut msg = String::new();
        push_str(&mut msg, "Evento já recebido anteriormente");
        let body = response(upload_id, "duplicate", true, None, Some(msg));
        return UploadStep::Respond { audit, status: 200, body };
    }
    let parsed = parse_manifest_files(manifest_json.as_str());
    if let Err(e) = &parsed {
        let mut msg = String::new();
        push_str(&mut msg, "Manifesto inválido: ");
        push_str(&mut msg, e.as_str());
        let (status, body) = reject(upload_id, 400, msg.as_str());
        return UploadStep::Respond { audit: Vec::new(), status, body };
    }
    let refs = parsed.unwrap();
    let ghost rv = refs_view(refs);
    assert(spec_manifest_files(manifest_json@) is Ok && spec_manifest_files(manifest_json@)->Ok_0 == rv) by {
        match refs {
            Some(v) => {},
            None => {},
        }
    }
    let mut out: Vec<UploadFile> = Vec::new();
    let mut rest = files;
    let n = rest.len();
    let mut k: usize = 0;
    let mut total: u64 = 0;
    while k < n
        invariant
            n == parts.len(),
            k <= n,
            rest@ == parts.subrange(k as int, n as int),
            out@.len() == k,
            parts_size(parts) <= u64::MAX,
            total as nat == parts_size(parts.take(k as int)),
            rv == refs_view(refs),
            forall|j: int| 0 <= j < k ==> #[trigger] out@[j].name@ == parts[j].name@ && out@[j].data@ == parts[j].data@
                && out@[j].declared_sha256@ == spec_declared(rv, parts[j].name@),
        decreases n - k,
    {
        let part = rest.remove(0);
        assert(part == parts[k as int]);
        proof {
            assert(parts.take(k + 1).drop_last() =~= parts.take(k as int));
            lemma_parts_size_prefix(parts, k + 1);
        }
        total = total + part.data.len() as u64;
        let declared = declared_sha256(&refs, part.name.as_str());
        out.push(UploadFile { name: part.name, data: part.data, declared_sha256: declared });
        k = k + 1;
    }
    assert(parts.take(n as int) =~= parts);
    let mut client_cn = String::new();
    push_str(&mut client_cn, "unknown");
    let received = AuditEvent::UploadReceived {
        upload_id: to_owned_string(upload_id),
        event_id: to_owned_string(event_id.as_str()),
        station_id: to_owned_string(station_id.as_str()),
        client_cn,
        file_count: out.len(),
        total_bytes: total,
    };
    let step = UploadStep::Store { received, event_id, station_id, manifest_json, files: out };
    assert(Some(event_id@) == present(fields.event_id));
    assert(Some(station_id@) == present(fields.station_id));
    assert(Some(manifest_json@) == present(fields.manifest));
    assert(spec_manifest_files(manifest_json@) is Ok);
    assert(out@.len() == fields.files@.len());
    assert(spec_manifest_files(manifest_json@)->Ok_0 == rv);
    assert(forall|j: int| 0 <= j < out@.len() ==> #[trigger] out@[j].name@ == fields.files@[j].name@
        && out@[j].data@ == fields.files@[j].data@
        && out@[j].declared_sha256@ == spec_declared(spec_manifest_files(manifest_json@)->Ok_0, fields.files@[j].name@));
    assert(total as nat == parts_size(fields.files@));
    step
}

/// A storing step carries the form's station, event and manifest, and
/// every file part in order with the digest that the manifest declares for
/// it; its audit event records the upload as received, with the file count
/// and total size.
pub open spec fn stores_declared(step: UploadStep, fields: UploadFields, upload_id: Seq<char>) -> bool {
    match step {
        UploadStep::Store { received, event_id, station_id, manifest_json, files } => {
            &&& Some(event_id@) == present(fields.event_id)
            &&& Some(station_id@) == present(fields.station_id)
            &&& Some(manifest_json@) == present(fields.manifest)
            &&& spec_manifest_files(manifest_json@) is Ok
            &&& files@.len() == fields.files@.len()
            &&& forall|j: int| 0 <= j < files@.len() ==> #[trigger] files@[j].name@ == fields.files@[j].name@
                && files@[j].data@ == fields.files@[j].data@
                && files@[j].declared_sha256@ == spec_declared(spec_manifest_files(manifest_json@)->Ok_0, fields.files@[j].name@)
            &&& received matches AuditEvent::UploadReceived { upload_id: u, event_id: ev, station_id: s, client_cn, file_count, total_bytes }
                && u@ == upload_id && ev@ == event_id@ && s@ == station_id@ && client_cn@ == "unknown"@
                && file_count == files@.len() && total_bytes == parts_size(fields.files@)
        },
        UploadStep::Respond { .. } => false,
    }
}

/// The size of a prefix of the parts is at most the whole.
pub proof fn lemma_parts_size_prefix(s: Seq<UploadedPart>, k: int)
    requires
        0 <= k <= s.len(),
    ensures
        parts_size(s.take(k)) <= parts_size(s),
    decreases s.len(),
{
    if k < s.len() {
        assert(s.drop_last().take(k) =~= s.take(k));
        lemma_parts_size_prefix(s.drop_last(), k);
    } else {
        assert(s.take(k) =~= s);
    }
}

/// The answer once storing went: accepted with the repository path, or
/// refused with 500 and the error (a quarantined upload among them).
pub fn response_after_store(upload_id: &str, stored: Result<String, String>) -> (r: (u16, UploadResponse))
    ensures
        stored matches Ok(path) ==> r.0 == 200 && r.1.upload_id@ == upload_id@ && r.1.status@ == "accepted"@
            && r.1.hash_verified && opt_view(r.1.stored_path) == Some(path@) && r.1.message is None,
        stored matches Err(e) ==> r.0 == 500 && r.1.upload_id@ == upload_id@ && r.1.status@ == "rejected"@
            && !r.1.hash_verified && r.1.stored_path is None && opt_view(r.1.message) == Some("Erro interno: "@ + e@),
        server_answer(r.0, r.1),
{
    match stored {
        Ok(path) => (200, response(upload_id, "accepted", true, Some(path), None)),
        Err(e) => {
            let mut msg = String::new();
            push_str(&mut msg, "Erro interno: ");
            push_str(&mut msg, e.as_str());
            reject(upload_id, 500, msg.as_str())
        },
    }
}

impl HealthResponse {
    /// The health answer: status "ok" and the server's version.
    pub fn ok(version: &'static str) -> (r: Self)
        ensures
            r.status@ == "ok"@,
            r.version == version,
    {
        let mut status = String::new();
        push_str(&mut status, "ok");
        HealthResponse { status, version }
    }
}

/// The agent counts an upload as sent exactly when the server accepted it
/// or already held it: for every answer that the server gives, the agent's
/// reading of it is a success exactly when the status is 200, and then it
/// is the answer's upload id.
pub proof fn law_agent_counts_server_acceptance(status: u16, body: UploadResponse, ack: UploadAck)
    requires
        server_answer(status, body),
        carries(ack, status, body),
    ensures
        spec_ack(ack) is Ok <==> status == 200,
        spec_ack(ack) is Ok ==> spec_ack(ack) == Ok::<Seq<char>, Seq<char>>(body.upload_id@),
{
}


/// The declared digest of a file is that of the first manifest entry named
/// after it, wherever in the list that entry stands, and whatever entries
/// follow: its `sha256` text, or the empty text where it has none.
pub proof fn law_declared_digest_is_first_named_entry(
    rs: Seq<(Option<Seq<char>>, Option<Seq<char>>)>,
    name: Seq<char>,
    k: int,
)
    requires
        0 <= k < rs.len(),
        rs[k].0 == Some(name),
        forall|j: int| 0 <= j < k ==> rs[j].0 != Some(name),
    ensures
        first_declared(rs, name) == match rs[k].1 {
            Some(h) => h,
            None => Seq::<char>::empty(),
        },
    decreases k,
{
    if k > 0 {
        assert(rs[0].0 != Some(name));
        let rest = rs.drop_first();
        assert forall|j: int| 0 <= j < k - 1 implies rest[j].0 != Some(name) by {
            assert(rest[j] == rs[j + 1]);
        }
        assert(rest[k - 1] == rs[k]);
        law_declared_digest_is_first_named_entry(rest, name, k - 1);
    }
}

/// A file that no manifest entry is named after declares the empty digest.
pub proof fn law_unnamed_file_declares_nothing(rs: Seq<(Option<Seq<char>>, Option<Seq<char>>)>, name: Seq<char>)
    requires
        forall|j: int| 0 <= j < rs.len() ==> rs[j].0 != Some(name),
    ensures
        first_declared(rs, name) == Seq::<char>::empty(),
    decreases rs.len(),
{
    if rs.len() > 0 {
        let rest = rs.drop_first();
        assert forall|j: int| 0 <= j < rest.len() implies rest[j].0 != Some(name) by {
            assert(rest[j] == rs[j + 1]);
        }
        law_unnamed_file_declares_nothing(rest, name);
    }
}

} // verus!
