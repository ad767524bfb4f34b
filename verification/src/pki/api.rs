//! The renewal endpoint's decisions: which requests are refused, with what
//! status and message, what is audited, and when a certificate is issued.
use crate::certs::{pem_contents, spec_pem_contents, spec_x509_facts};
use crate::clock::{clock_reading, UtcTimestamp, format_rfc3339, representable, spec_rfc3339, whole_days, whole_secs_since};
use crate::pki::audit::{PkiAuditEvent, PkiAuditLogger};
use crate::pki::ca::{
    validate_client_cert, sign_csr, cert_expiry_utc, RenewalError, RenewalErrorView, ValidatedClient,
    is_allowed, cn_or_empty, resolved_expiry, error_text, spec_sign_precheck, client_view,
    spec_check_client, spec_expiry_at,
};
use crate::issuance::pem_labelled;
use crate::readback::{pem_subject_cn, reads_as_end_entity, reads_as_signed, signed_for_request};
use crate::pki::config::PkiConfig;
use crate::text::{push_str, push_signed_decimal, signed_decimal, str_eq, to_owned_string, opt_view};
use std::sync::Arc;
use vstd::prelude::*;

verus! {

/// What the PKI server's handlers share.
pub struct AppState {
    pub config: Arc<PkiConfig>,
    pub audit: Arc<PkiAuditLogger>,
    pub ca_cert_pem: String,
    pub ca_key_pem: String,
}

/// The body of a refused renewal.
pub struct RenewResponse {
    pub request_id: String,
    pub status: String,
    pub message: Option<String>,
}

/// The body of the health check.
pub struct HealthResponse {
    pub status: &'static str,
    pub version: &'static str,
}

/// The fields of a renewal request, as read from the form: each one where
/// it was present and readable as text.
pub struct RenewFields {
    pub station_id: Option<String>,
    pub current_cert_pem: Option<String>,
    pub csr_pem: Option<String>,
}

/// The answer to a renewal request.
pub enum RenewReply {
    /// The new certificate, as PEM text.
    Issued { cert_pem: String },
    /// A refusal, with its HTTP status.
    Rejected { status: u16, body: RenewResponse },
}

/// What handling a renewal request does: the audit events to write, in
/// order, and the answer.
pub struct RenewOutcome {
    pub audit: Vec<PkiAuditEvent>,
    pub reply: RenewReply,
}

/// A form field that is present and not empty.
pub open spec fn present(f: Option<String>) -> Option<Seq<char>> {
    match f {
        Some(s) => if s@.len() > 0 { Some(s@) } else { None },
        None => None,
    }
}

/// The refusal for missing fields, in the order they are checked.
pub open spec fn spec_missing_field(fields: RenewFields) -> Option<Seq<char>> {
    if present(fields.station_id) is None {
        Some("station_id ausente"@)
    } else if present(fields.current_cert_pem) is None {
        Some("current_cert_pem ausente"@)
    } else if present(fields.csr_pem) is None {
        Some("csr_pem ausente"@)
    } else {
        None
    }
}

/// The reply is a refusal with this status and message for this request.
pub open spec fn rejected_with(reply: RenewReply, request_id: Seq<char>, status: u16, message: Seq<char>) -> bool {
    match reply {
        RenewReply::Rejected { status: s, body } => s == status && body.request_id@ == request_id
            && body.status@ == "rejected"@ && opt_view(body.message) == Some(message),
        RenewReply::Issued { .. } => false,
    }
}

/// A renewal is authorized: the current certificate decodes and parses, its
/// common name is the requesting station, the station is on the allowlist,
/// and at some reading of the clock the certificate had no more days left
/// than the renewal window.
pub open spec fn renewal_authorized(cert_pem: Seq<char>, station_id: Seq<char>, allowed: Seq<String>, window: i64) -> bool {
    &&& spec_pem_contents(cert_pem) is Ok
    &&& spec_x509_facts(spec_pem_contents(cert_pem)->Ok_0) is Ok
    &&& cn_or_empty(spec_x509_facts(spec_pem_contents(cert_pem)->Ok_0)->Ok_0.0) == station_id
    &&& is_allowed(allowed, station_id)
    &&& exists|fallback: UtcTimestamp, now: UtcTimestamp|
        #![trigger resolved_expiry(spec_x509_facts(spec_pem_contents(cert_pem)->Ok_0)->Ok_0.1, fallback), representable(now)]
        representable(fallback) && representable(now) && whole_days(whole_secs_since(resolved_expiry(spec_x509_facts(spec_pem_contents(cert_pem)->Ok_0)->Ok_0.1, fallback), now)) <= window
}

/// A refusal body.
pub fn reject(request_id: &str, message: &str) -> (r: RenewResponse)
    ensures
        r.request_id@ == request_id@,
        r.status@ == "rejected"@,
        opt_view(r.message) == Some(message@),
{
    let mut status = String::new();
    push_str(&mut status, "rejected");
    RenewResponse {
        request_id: to_owned_string(request_id),
        status,
        message: Some(to_owned_string(message)),
    }
}

/// A present, non-empty field.
fn take_present(f: Option<String>) -> (r: Option<String>)
    ensures
        opt_view(r) == present(f),
{
    match f {
        Some(s) => if s.as_str().is_empty() { None } else { Some(s) },
        None => None,
    }
}

/// The audit reason and the answer for a certificate that failed
/// validation: a renewal too early is refused with 409 and audited, a
/// station off the allowlist is refused with 403 and audited, and any other
/// invalid certificate is refused with 400.
pub open spec fn spec_validation_rejection(e: RenewalErrorView) -> (Option<Seq<char>>, u16, Seq<char>) {
    match e {
        RenewalErrorView::TooEarlyToRenew { days_remaining, max_window } => (
            Some(signed_decimal(days_remaining) + " dias restantes — janela máxima: "@ + signed_decimal(max_window) + " dias"@),
            409,
            signed_decimal(days_remaining) + " dias restantes — renovação só permitida nos últimos "@ + signed_decimal(max_window) + " dias"@,
        ),
        RenewalErrorView::StationNotAllowed { .. } => (Some("Estação não autorizada"@), 403, "Estação não autorizada"@),
        _ => (None, 400, "Certificado inválido: "@ + error_text(e)),
    }
}

/// The station that a validation refusal is audited under.
pub open spec fn rejection_station(e: RenewalErrorView, body_station: Seq<char>) -> Seq<char> {
    match e {
        RenewalErrorView::StationNotAllowed { station_id } => station_id,
        _ => body_station,
    }
}

/// The audit event and answer for a certificate that failed validation.
pub fn validation_rejection(request_id: &str, station_id: &str, e: RenewalError) -> (r: (Option<PkiAuditEvent>, u16, RenewResponse))
    ensures
        ({
            let (reason, status, message) = spec_validation_rejection(e@);
            &&& r.1 == status
            &&& r.2.request_id@ == request_id@ && r.2.status@ == "rejected"@ && opt_view(r.2.message) == Some(message)
            &&& match reason {
                None => r.0 is None,
                Some(why) => r.0 matches Some(PkiAuditEvent::RenewalRejected { request_id: rid, station_id: sid, client_cn, reason }) && rid@ == request_id@
                    && sid@ == rejection_station(e@, station_id@) && client_cn@ == rejection_station(e@, station_id@) && reason@ == why,
            }
        }),
{
    match e {
        RenewalError::TooEarlyToRenew { days_remaining, max_window } => {
            let mut reason = String::new();
            push_signed_decimal(&mut reason, days_remaining);
            push_str(&mut reason, " dias restantes — janela máxima: ");
            push_signed_decimal(&mut reason, max_window);
            push_str(&mut reason, " dias");
            let mut msg = String::new();
            push_signed_decimal(&mut msg, days_remaining);
            push_str(&mut msg, " dias restantes — renovação só permitida nos últimos ");
            push_signed_decimal(&mut msg, max_window);
            push_str(&mut msg, " dias");
            let ev = PkiAuditEvent::RenewalRejected {
                request_id: to_owned_string(request_id),
                station_id: to_owned_string(station_id),
                client_cn: to_owned_string(station_id),
                reason,
            };
            let body = reject(request_id, msg.as_str());
            (Some(ev), 409, body)
        },
        RenewalError::StationNotAllowed { station_id: cn } => {
            let mut reason = String::new();
            push_str(&mut reason, "Estação não autorizada");
            let ev = PkiAuditEvent::RenewalRejected {
                request_id: to_owned_string(request_id),
                station_id: to_owned_string(cn.as_str()),
                client_cn: cn,
                reason,
            };
            let body = reject(request_id, "Estação não autorizada");
            (Some(ev), 403, body)
        },
        other => {
            let mut msg = String::new();
            push_str(&mut msg, "Certificado inválido: ");
            let text = other.message();
            push_str(&mut msg, text.as_str());
            let body = reject(request_id, msg.as_str());
            (None, 400, body)
        },
    }
}

/// The audit reason and the answer for a request that failed signing: a
/// common-name mismatch is refused with 403, anything else with 500.
pub open spec fn spec_signing_rejection(e: RenewalErrorView) -> (Seq<char>, u16, Seq<char>) {
    match e {
        RenewalErrorView::CnMismatch { csr_cn, client_cn } => (
            "CN mismatch: CSR tem '"@ + csr_cn + "', cliente é '"@ + client_cn + "'"@,
            403,
            "CN do CSR não corresponde ao certificado cliente"@,
        ),
        _ => ("Erro interno: "@ + error_text(e), 500, "Erro interno ao assinar certificado"@),
    }
}

/// The audit event and answer for a request that failed signing.
pub fn signing_rejection(request_id: &str, station_id: &str, e: RenewalError) -> (r: (PkiAuditEvent, u16, RenewResponse))
    ensures
        ({
            let (why, status, message) = spec_signing_rejection(e@);
            &&& r.1 == status
            &&& r.2.request_id@ == request_id@ && r.2.status@ == "rejected"@ && opt_view(r.2.message) == Some(message)
            &&& r.0 matches PkiAuditEvent::RenewalRejected { request_id: rid, station_id: sid, client_cn, reason }
            &&& rid@ == request_id@ && sid@ == station_id@ && client_cn@ == station_id@ && reason@ == why
        }),
{
    let mut reason = String::new();
    let (status, body) = match &e {
        RenewalError::CnMismatch { csr_cn, client_cn } => {
            push_str(&mut reason, "CN mismatch: CSR tem '");
            push_str(&mut reason, csr_cn.as_str());
            push_str(&mut reason, "', cliente é '");
            push_str(&mut reason, client_cn.as_str());
            push_str(&mut reason, "'");
            (403u16, reject(request_id, "CN do CSR não corresponde ao certificado cliente"))
        },
        _ => {
            push_str(&mut reason, "Erro interno: ");
            let text = e.message();
            push_str(&mut reason, text.as_str());
            (500u16, reject(request_id, "Erro interno ao assinar certificado"))
        },
    };
    let ev = PkiAuditEvent::RenewalRejected {
        request_id: to_owned_string(request_id),
        station_id: to_owned_string(station_id),
        client_cn: to_owned_string(station_id),
        reason,
    };
    (ev, status, body)
}

/// The audit trail of an issued renewal: the request, then the issue, both
/// under the request's id and the station's name.
pub open spec fn issued_audit(audit: Seq<PkiAuditEvent>, request_id: Seq<char>, station_id: Seq<char>) -> bool {
    &&& audit.len() == 2
    &&& audit[0] matches PkiAuditEvent::RenewalRequested { request_id: rid, station_id: sid, client_cn, .. }
        && rid@ == request_id && sid@ == station_id && client_cn@ == station_id
    &&& audit[1] matches PkiAuditEvent::RenewalIssued { request_id: rid, station_id: sid, client_cn, .. }
        && rid@ == request_id && sid@ == station_id && client_cn@ == station_id
}

/// The field's text, where it is present.
pub open spec fn field_text(f: Option<String>) -> Seq<char> {
    match f {
        Some(s) => s@,
        None => Seq::empty(),
    }
}

/// The message for a request whose TLS client certificate is not the
/// certificate it asks to renew.
pub open spec fn peer_mismatch_message() -> Seq<char> {
    "Certificado TLS do cliente não corresponde a current_cert_pem"@
}

/// The DER of the TLS client's certificate, where it presented one.
pub open spec fn peer_view(peer: Option<Vec<u8>>) -> Option<Seq<u8>> {
    match peer {
        Some(d) => Some(d@),
        None => None,
    }
}

/// Whether the TLS client presented the certificate `der`.
fn peer_is(peer: &Option<Vec<u8>>, der: &Vec<u8>) -> (r: bool)
    ensures
        r == (peer_view(*peer) == Some(der@)),
{
    match peer {
        Some(d) => {
            if d.len() != der.len() {
                assert(d@.len() != der@.len());
                return false;
            }
            let mut i: usize = 0;
            while i < d.len()
                invariant
                    peer_view(*peer) == Some(d@),
                    d.len() == der.len(),
                    i <= d.len(),
                    forall|k: int| 0 <= k < i ==> d@[k] == der@[k],
                decreases d.len() - i,
            {
                if d[i] != der[i] {
                    assert(d@[i as int] != der@[i as int]);
                    return false;
                }
                i = i + 1;
            }
            assert(d@ =~= der@);
            true
        },
        None => false,
    }
}

/// Handles a renewal request. A request missing a field, or whose current
/// certificate is not PEM, is refused with 400 and nothing audited. A
/// request whose TLS client certificate (`peer_cert_der`, the DER that the
/// client presented in the handshake) is not the current certificate is
/// refused with 403 and nothing audited: only the holder of the current
/// certificate's key renews it. Past that, the DER of the current
/// certificate is validated against the
/// allowlist and the renewal window, and the request is answered as
/// `validated_answer` says for that validation's outcome, the requesting
/// station, the request's CSR and the CA. A certificate is issued only
/// where the renewal is authorized (the certificate's common name is the
/// requesting station, the station is allowed and the certificate is within
/// the renewal window), and then the request and the issue are audited, in
/// that order.
pub fn process_renewal(state: &AppState, fields: RenewFields, request_id: &str, peer_cert_der: Option<Vec<u8>>) -> (o: RenewOutcome)
    ensures
        (spec_missing_field(fields) matches Some(m) ==> o.audit@.len() == 0 && rejected_with(o.reply, request_id@, 400, m)),
        (spec_missing_field(fields) is None && spec_pem_contents(field_text(fields.current_cert_pem)) is Err ==> o.audit@.len() == 0
            && rejected_with(o.reply, request_id@, 400, "current_cert_pem inválido"@)),
        (spec_missing_field(fields) is None && spec_pem_contents(field_text(fields.current_cert_pem)) is Ok
            && peer_view(peer_cert_der) != Some(spec_pem_contents(field_text(fields.current_cert_pem))->Ok_0) ==> o.audit@.len() == 0
            && rejected_with(o.reply, request_id@, 403, peer_mismatch_message())),
        (spec_missing_field(fields) is None && spec_pem_contents(field_text(fields.current_cert_pem)) is Ok
            && peer_view(peer_cert_der) == Some(spec_pem_contents(field_text(fields.current_cert_pem))->Ok_0) ==> exists|vr: ClientOutcome|
            #[trigger] validation_of(spec_pem_contents(field_text(fields.current_cert_pem))->Ok_0, state.config.allowed_station_ids@,
                state.config.renewal_window_days_max, vr)
            && validated_answer(o, vr, request_id@, field_text(fields.station_id), field_text(fields.csr_pem), state.ca_cert_pem@,
                state.ca_key_pem@, state.config.issued_cert_validity_days)),
        (o.reply is Issued ==> spec_missing_field(fields) is None
            && peer_view(peer_cert_der) == Some(spec_pem_contents(field_text(fields.current_cert_pem))->Ok_0)
            && renewal_authorized(field_text(fields.current_cert_pem), field_text(fields.station_id),
            state.config.allowed_station_ids@, state.config.renewal_window_days_max) && issued_audit(o.audit@, request_id@, field_text(fields.station_id))),
{
    let RenewFields { station_id, current_cert_pem, csr_pem } = fields;
    let station_id = match take_present(station_id) {
        Some(s) => s,
        None => {
            return RenewOutcome { audit: Vec::new(), reply: RenewReply::Rejected { status: 400, body: reject(request_id, "station_id ausente") } };
        },
    };
    let current_cert_pem = match take_present(current_cert_pem) {
        Some(s) => s,
        None => {
            return RenewOutcome { audit: Vec::new(), reply: RenewReply::Rejected { status: 400, body: reject(request_id, "current_cert_pem ausente") } };
        },
    };
    let csr_pem = match take_present(csr_pem) {
        Some(s) => s,
        None => {
            return RenewOutcome { audit: Vec::new(), reply: RenewReply::Rejected { status: 400, body: reject(request_id, "csr_pem ausente") } };
        },
    };
    let cert_der = match pem_contents(current_cert_pem.as_str()) {
        Ok(d) => d,
        Err(_) => {
            return RenewOutcome { audit: Vec::new(), reply: RenewReply::Rejected { status: 400, body: reject(request_id, "current_cert_pem inválido") } };
        },
    };
    if !peer_is(&peer_cert_der, &cert_der) {
        return RenewOutcome {
            audit: Vec::new(),
            reply: RenewReply::Rejected { status: 403, body: reject(request_id, "Certificado TLS do cliente não corresponde a current_cert_pem") },
        };
    }
    let validated = validate_client_cert(
        cert_der.as_slice(),
        state.config.allowed_station_ids.as_slice(),
        state.config.renewal_window_days_max,
    );
    let ghost vr = client_view(validated);
    let o = answer_validated(state, request_id, station_id.as_str(), csr_pem.as_str(), validated);
    assert(validation_of(cert_der@, state.config.allowed_station_ids@, state.config.renewal_window_days_max, vr));
    proof {
        if o.reply is Issued {
            let der = spec_pem_contents(current_cert_pem@)->Ok_0;
            let f = spec_x509_facts(der)->Ok_0;
            let (fb, n) = choose|fallback: UtcTimestamp, now: UtcTimestamp|
                #![trigger resolved_expiry(f.1, fallback), representable(now)]
                representable(fallback) && representable(now) && vr == spec_check_client(
                    cn_or_empty(f.0),
                    resolved_expiry(f.1, fallback),
                    state.config.allowed_station_ids@,
                    state.config.renewal_window_days_max,
                    now,
                );
            assert(representable(fb) && representable(n) && whole_days(whole_secs_since(resolved_expiry(f.1, fb), n)) <= state.config.renewal_window_days_max);
        }
    }
    o
}

/// The issue was audited under the request's id and the station.
pub open spec fn issued_event(e: PkiAuditEvent, request_id: Seq<char>, station_id: Seq<char>) -> bool {
    match e {
        PkiAuditEvent::RenewalIssued { request_id: rid, station_id: sid, client_cn, .. } =>
            rid@ == request_id && sid@ == station_id && client_cn@ == station_id,
        _ => false,
    }
}

/// The answer after the request was audited, for a signing refusal `e`:
/// its audit reason follows the request's record, and the reply carries its
/// status and message.
pub open spec fn signing_answer(audit: Seq<PkiAuditEvent>, reply: RenewReply, request_id: Seq<char>, station_id: Seq<char>, e: RenewalErrorView) -> bool {
    let (why, status, message) = spec_signing_rejection(e);
    &&& audit.len() == 2
    &&& match audit[1] {
        PkiAuditEvent::RenewalRejected { request_id: rid, station_id: sid, client_cn, reason } =>
            rid@ == request_id && sid@ == station_id && client_cn@ == station_id && reason@ == why,
        _ => false,
    }
    &&& rejected_with(reply, request_id, status, message)
}

/// The answer where the new certificate's expiry is beyond what chrono
/// represents: an internal error, after the request was audited; it comes
/// only where, at some reading of the clock, the end of `days` days from
/// then is not representable.
pub open spec fn expiry_failure(audit: Seq<PkiAuditEvent>, reply: RenewReply, request_id: Seq<char>, days: u32) -> bool {
    &&& audit.len() == 1
    &&& rejected_with(reply, request_id, 500, "Erro interno ao assinar certificado"@)
    &&& exists|now: UtcTimestamp| #[trigger] representable(now) && spec_expiry_at(now, days as nat) is None
}

/// An issued certificate: PEM, naming the station as its subject and the
/// CA's common name as its issuer, valid for exactly `days` days, with the
/// request's subject and public key, and not a CA.
pub open spec fn issued_for(cert_pem: Seq<char>, station_id: Seq<char>, csr_pem: Seq<char>, ca_cert_pem: Seq<char>, days: u32) -> bool {
    &&& pem_labelled(cert_pem, "CERTIFICATE"@)
    &&& reads_as_signed(cert_pem, station_id, pem_subject_cn(ca_cert_pem), days as nat)
    &&& signed_for_request(cert_pem, csr_pem)
    &&& reads_as_end_entity(cert_pem)
}

/// The outcome of validating a client certificate, by its values.
pub type ClientOutcome = Result<(Seq<char>, UtcTimestamp, int), RenewalErrorView>;

/// `vr` is an outcome that validating the DER certificate `der` can have:
/// its parse error, or the check of its common name and expiry at some
/// reading of the system clock.
pub open spec fn validation_of(der: Seq<u8>, allowed: Seq<String>, window: i64, vr: ClientOutcome) -> bool {
    match spec_x509_facts(der) {
        Err(e) => vr == Err::<(Seq<char>, UtcTimestamp, int), RenewalErrorView>(RenewalErrorView::InvalidClientCert(e)),
        Ok(f) => exists|fallback: UtcTimestamp, now: UtcTimestamp|
            #![trigger resolved_expiry(f.1, fallback), representable(now)]
            representable(fallback) && representable(now) && clock_reading(now) && vr == spec_check_client(
                cn_or_empty(f.0),
                resolved_expiry(f.1, fallback),
                allowed,
                window,
                now,
            ),
    }
}

/// The request was audited: its id, the station, the current certificate's
/// expiry in RFC 3339 and its days left, from a validated outcome.
pub open spec fn requested_record(e: PkiAuditEvent, request_id: Seq<char>, v: (Seq<char>, UtcTimestamp, int)) -> bool {
    match e {
        PkiAuditEvent::RenewalRequested { request_id: rid, station_id, client_cn, client_cert_expiry_utc, days_remaining } =>
            rid@ == request_id && station_id@ == v.0 && client_cn@ == v.0
            && client_cert_expiry_utc@ == spec_rfc3339(v.1.secs, v.1.nanos)
            && days_remaining == v.2,
        _ => false,
    }
}

/// How a renewal request is answered once its certificate was validated
/// with the outcome `vr`: a validation refusal is answered as
/// `spec_validation_rejection` says; a certificate of another station than
/// the requesting one is refused with 403 and nothing audited; otherwise
/// the request is audited, and then either the certificate signed by
/// `sign_csr` for the station, the CA and `days` is issued and its issue
/// audited, or the signing refusal is audited and answered, or the new
/// expiry is beyond what chrono represents. A request that does not parse
/// or names another station, or a CA key or certificate that is not PEM,
/// is never issued.
pub open spec fn validated_answer(
    o: RenewOutcome,
    vr: ClientOutcome,
    request_id: Seq<char>,
    station_id: Seq<char>,
    csr_pem: Seq<char>,
    ca_cert_pem: Seq<char>,
    ca_key_pem: Seq<char>,
    days: u32,
) -> bool {
    match vr {
        Err(e) => {
            let (reason, status, message) = spec_validation_rejection(e);
            &&& rejected_with(o.reply, request_id, status, message)
            &&& match reason {
                None => o.audit@.len() == 0,
                Some(why) => o.audit@.len() == 1 && match o.audit@[0] {
                    PkiAuditEvent::RenewalRejected { request_id: rid, station_id: sid, client_cn, reason } =>
                        rid@ == request_id && sid@ == rejection_station(e, station_id)
                        && client_cn@ == rejection_station(e, station_id) && reason@ == why,
                    _ => false,
                },
            }
        },
        Ok(v) => if v.0 != station_id {
            o.audit@.len() == 0 && rejected_with(o.reply, request_id, 403, mismatch_message())
        } else {
            &&& o.audit@.len() >= 1
            &&& requested_record(o.audit@[0], request_id, v)
            &&& (o.reply matches RenewReply::Issued { cert_pem } ==> o.audit@.len() == 2
                && issued_event(o.audit@[1], request_id, station_id) && issued_for(cert_pem@, station_id, csr_pem, ca_cert_pem, days))
            &&& (o.reply is Rejected ==> expiry_failure(o.audit@, o.reply, request_id, days)
                || exists|e: RenewalErrorView| #[trigger] signing_answer(o.audit@, o.reply, request_id, station_id, e)
                    && (spec_sign_precheck(csr_pem, station_id) matches Some(p) ==> e == p)
                    && (spec_sign_precheck(csr_pem, station_id) is None ==> e is SigningError))
            &&& (spec_sign_precheck(csr_pem, station_id) is Some ==> o.reply is Rejected)
            &&& (spec_pem_contents(ca_key_pem) is Err || spec_pem_contents(ca_cert_pem) is Err ==> o.reply is Rejected)
        },
    }
}

/// The refusal of a validated certificate whose common name is not the
/// requesting station.
pub open spec fn mismatch_message() -> Seq<char> {
    "station_id não corresponde ao CN do certificado"@
}

/// Answers a renewal request once the current certificate was validated.
/// A validation refusal is answered by `validation_rejection`. A
/// certificate of another station than the one named in the request is
/// refused with 403 and nothing audited. Otherwise the request is audited;
/// the request's signature is then attempted: a certificate is issued and
/// its issue audited, or the signing refusal is audited and answered by
/// `signing_rejection` (a request that does not parse, or names another
/// station, is refused as such), or, where the new expiry is beyond what
/// chrono represents, an internal error is answered. The certificate issued
/// is the one `sign_csr` gives for the request, the station, the
/// configured validity and the CA: it reads back as the station's, issued
/// by the CA, for exactly that validity.
pub fn answer_validated(state: &AppState, request_id: &str, station_id: &str, csr_pem: &str, validated: Result<ValidatedClient, RenewalError>) -> (o: RenewOutcome)
    requires
        validated matches Ok(v) ==> representable(v.cert_expiry_utc),
    ensures
        validated_answer(o, client_view(validated), request_id@, station_id@, csr_pem@, state.ca_cert_pem@, state.ca_key_pem@,
            state.config.issued_cert_validity_days),
        o.reply is Issued ==> (validated matches Ok(v) && v.station_id@ == station_id@),
{
    let validated = match validated {
        Ok(v) => v,
        Err(e) => {
            let (ev, status, body) = validation_rejection(request_id, station_id, e);
            let mut audit = Vec::new();
            match ev {
                Some(ev) => audit.push(ev),
                None => {},
            }
            return RenewOutcome { audit, reply: RenewReply::Rejected { status, body } };
        },
    };
    if !str_eq(validated.station_id.as_str(), station_id) {
        return RenewOutcome { audit: Vec::new(), reply: RenewReply::Rejected { status: 403, body: reject(request_id, "station_id não corresponde ao CN do certificado") } };
    }
    let mut audit: Vec<PkiAuditEvent> = Vec::new();
    audit.push(PkiAuditEvent::RenewalRequested {
        request_id: to_owned_string(request_id),
        station_id: to_owned_string(validated.station_id.as_str()),
        client_cn: to_owned_string(validated.station_id.as_str()),
        client_cert_expiry_utc: format_rfc3339(validated.cert_expiry_utc),
        days_remaining: validated.days_remaining,
    });
    let new_expiry = match cert_expiry_utc(state.config.issued_cert_validity_days) {
        Some(t) => t,
        None => {
            return RenewOutcome { audit, reply: RenewReply::Rejected { status: 500, body: reject(request_id, "Erro interno ao assinar certificado") } };
        },
    };
    match sign_csr(
        csr_pem,
        validated.station_id.as_str(),
        state.config.issued_cert_validity_days,
        state.ca_cert_pem.as_str(),
        state.ca_key_pem.as_str(),
    ) {
        Ok(pem) => {
            audit.push(PkiAuditEvent::RenewalIssued {
                request_id: to_owned_string(request_id),
                station_id: to_owned_string(validated.station_id.as_str()),
                client_cn: to_owned_string(validated.station_id.as_str()),
                new_cert_expiry_utc: format_rfc3339(new_expiry),
            });
            RenewOutcome { audit, reply: RenewReply::Issued { cert_pem: pem } }
        },
        Err(e) => {
            let ghost ev = e@;
            let (rec, status, body) = signing_rejection(request_id, validated.station_id.as_str(), e);
            audit.push(rec);
            let o = RenewOutcome { audit, reply: RenewReply::Rejected { status, body } };
            assert(signing_answer(o.audit@, o.reply, request_id@, station_id@, ev));
            o
        },
    }
}

impl HealthResponse {
    /// The health answer: status "ok" and the server's version.
    pub fn ok(version: &'static str) -> (r: Self)
        ensures
            r.status == "ok",
            r.version == version,
    {
        HealthResponse { status: "ok", version }
    }
}

} // verus!
