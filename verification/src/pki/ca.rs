//! Certificate checks and signing for station certificate renewal.
use crate::certs::{parse_certificate, spec_pem_contents, spec_x509_facts, CertFacts};
use crate::clock::{
    UtcTimestamp, utc_now, representable, days_between, whole_secs_since, whole_days,
    MIN_UTC_SECS, MAX_UTC_SECS, SECS_PER_DAY, chrono_instant, clock_reading, lemma_whole_secs_close,
};
use crate::text::{push_str, push_char, push_signed_decimal, signed_decimal, str_eq, opt_view, to_owned_string};
use crate::issuance::{
    ca_params_from_pem, certificate_pem, key_pair_from_pem, offset_now_utc, offset_plus_days,
    self_signed, pem_labelled, spec_cert_params, spec_key_pem,
};
use crate::readback::{
    check_end_entity, check_signed, check_signed_for_request, pem_subject_cn, reads_as_end_entity, reads_as_signed,
    signed_for_request, subject_cn_of,
};
use rcgen::{Certificate, CertificateSigningRequestParams, DnType, DnValue, KeyPair};
use time::OffsetDateTime;
use vstd::prelude::*;

verus! {

/// Why a renewal is refused.
#[derive(Debug)]
pub enum RenewalError {
    TooEarlyToRenew { days_remaining: i64, max_window: i64 },
    CnMismatch { csr_cn: String, client_cn: String },
    StationNotAllowed { station_id: String },
    CsrParseError(String),
    SigningError(String),
    InvalidClientCert(String),
}

/// A renewal refusal by its texts.
pub enum RenewalErrorView {
    TooEarlyToRenew { days_remaining: int, max_window: int },
    CnMismatch { csr_cn: Seq<char>, client_cn: Seq<char> },
    StationNotAllowed { station_id: Seq<char> },
    CsrParseError(Seq<char>),
    SigningError(Seq<char>),
    InvalidClientCert(Seq<char>),
}

impl View for RenewalError {
    type V = RenewalErrorView;

    open spec fn view(&self) -> RenewalErrorView {
        match self {
            RenewalError::TooEarlyToRenew { days_remaining, max_window } => RenewalErrorView::TooEarlyToRenew {
                days_remaining: *days_remaining as int,
                max_window: *max_window as int,
            },
            RenewalError::CnMismatch { csr_cn, client_cn } => RenewalErrorView::CnMismatch {
                csr_cn: csr_cn@,
                client_cn: client_cn@,
            },
            RenewalError::StationNotAllowed { station_id } => RenewalErrorView::StationNotAllowed {
                station_id: station_id@,
            },
            RenewalError::CsrParseError(m) => RenewalErrorView::CsrParseError(m@),
            RenewalError::SigningError(m) => RenewalErrorView::SigningError(m@),
            RenewalError::InvalidClientCert(m) => RenewalErrorView::InvalidClientCert(m@),
        }
    }
}

/// The text of a refusal, as it is shown to operators.
pub open spec fn error_text(e: RenewalErrorView) -> Seq<char> {
    match e {
        RenewalErrorView::TooEarlyToRenew { days_remaining, max_window } => "Renovação prematura: "@
            + signed_decimal(days_remaining) + " dias restantes, janela máxima: "@ + signed_decimal(
            max_window,
        ) + " dias"@,
        RenewalErrorView::CnMismatch { csr_cn, client_cn } => "CN do CSR '"@ + csr_cn
            + "' não corresponde ao CN do cliente '"@ + client_cn + "'"@,
        RenewalErrorView::StationNotAllowed { station_id } => "Estação não autorizada: "@
            + station_id,
        RenewalErrorView::CsrParseError(m) => "Erro ao parsear CSR: "@ + m,
        RenewalErrorView::SigningError(m) => "Erro ao assinar certificado: "@ + m,
        RenewalErrorView::InvalidClientCert(m) => "Certificado cliente inválido: "@ + m,
    }
}

impl RenewalError {
    /// The text of the refusal.
    pub fn message(&self) -> (r: String)
        ensures
            r@ == error_text(self@),
    {
        let mut r = String::new();
        match self {
            RenewalError::TooEarlyToRenew { days_remaining, max_window } => {
                push_str(&mut r, "Renovação prematura: ");
                push_signed_decimal(&mut r, *days_remaining);
                push_str(&mut r, " dias restantes, janela máxima: ");
                push_signed_decimal(&mut r, *max_window);
                push_str(&mut r, " dias");
            },
            RenewalError::CnMismatch { csr_cn, client_cn } => {
                push_str(&mut r, "CN do CSR '");
                push_str(&mut r, csr_cn.as_str());
                push_str(&mut r, "' não corresponde ao CN do cliente '");
                push_str(&mut r, client_cn.as_str());
                push_str(&mut r, "'");
            },
            RenewalError::StationNotAllowed { station_id } => {
                push_str(&mut r, "Estação não autorizada: ");
                push_str(&mut r, station_id.as_str());
            },
            RenewalError::CsrParseError(m) => {
                push_str(&mut r, "Erro ao parsear CSR: ");
                push_str(&mut r, m.as_str());
            },
            RenewalError::SigningError(m) => {
                push_str(&mut r, "Erro ao assinar certificado: ");
                push_str(&mut r, m.as_str());
            },
            RenewalError::InvalidClientCert(m) => {
                push_str(&mut r, "Certificado cliente inválido: ");
                push_str(&mut r, m.as_str());
            },
        }
        assert(r@ =~= error_text(self@));
        r
    }
}

/// A station whose certificate may be renewed now.
#[derive(Debug)]
pub struct ValidatedClient {
    pub station_id: String,
    pub cert_expiry_utc: UtcTimestamp,
    pub days_remaining: i64,
}

/// The outcome of checking a client certificate, by its values.
pub open spec fn client_view(r: Result<ValidatedClient, RenewalError>) -> Result<(Seq<char>, UtcTimestamp, int), RenewalErrorView> {
    match r {
        Ok(v) => Ok((v.station_id@, v.cert_expiry_utc, v.days_remaining as int)),
        Err(e) => Err(e@),
    }
}

/// The message of a certificate with no common name.
pub open spec fn empty_cn_message() -> Seq<char> {
    "CN vazio no certificado cliente"@
}

/// `id` is one of the allowed station ids.
pub open spec fn is_allowed(allowed: Seq<String>, id: Seq<char>) -> bool {
    exists|i: int| 0 <= i < allowed.len() && #[trigger] allowed[i]@ == id
}

/// The certificate's expiry as chrono holds it: its `notAfter` second, or
/// `fallback` where chrono cannot represent that second.
pub open spec fn resolved_expiry(not_after: i64, fallback: UtcTimestamp) -> UtcTimestamp {
    if MIN_UTC_SECS <= not_after <= MAX_UTC_SECS {
        UtcTimestamp { secs: not_after, nanos: 0 }
    } else {
        fallback
    }
}

/// The decision on a client certificate whose subject's first common name
/// is `cn` (empty where it has none) and which expires at `expiry`, checked
/// at `now`: an empty name is invalid, a station off the allowlist is
/// refused, a certificate with more days left than the renewal window is
/// too early, and any other is valid.
pub open spec fn spec_check_client(
    cn: Seq<char>,
    expiry: UtcTimestamp,
    allowed: Seq<String>,
    window: i64,
    now: UtcTimestamp,
) -> Result<(Seq<char>, UtcTimestamp, int), RenewalErrorView> {
    let days = whole_days(whole_secs_since(expiry, now));
    if cn.len() == 0 {
        Err(RenewalErrorView::InvalidClientCert(empty_cn_message()))
    } else if !is_allowed(allowed, cn) {
        Err(RenewalErrorView::StationNotAllowed { station_id: cn })
    } else if days > window {
        Err(RenewalErrorView::TooEarlyToRenew { days_remaining: days, max_window: window as int })
    } else {
        Ok((cn, expiry, days))
    }
}

/// The common name that the checks use: the certificate's, or empty.
pub open spec fn cn_or_empty(cn: Option<Seq<char>>) -> Seq<char> {
    match cn {
        Some(c) => c,
        None => Seq::empty(),
    }
}

/// Whether `id` is one of the allowed station ids.
pub fn station_allowed(allowed: &[String], id: &str) -> (r: bool)
    ensures
        r == is_allowed(allowed@, id@),
{
    let mut i: usize = 0;
    while i < allowed.len()
        invariant
            i <= allowed@.len(),
            forall|j: int| 0 <= j < i ==> #[trigger] allowed@[j]@ != id@,
        decreases allowed@.len() - i,
    {
        if str_eq(allowed[i].as_str(), id) {
            return true;
        }
        i = i + 1;
    }
    false
}

/// Decides on a client certificate from what was read of it, its resolved
/// expiry and the time of the check.
pub fn check_client(
    common_name: Option<String>,
    expiry: UtcTimestamp,
    allowed: &[String],
    window: i64,
    now: UtcTimestamp,
) -> (r: Result<ValidatedClient, RenewalError>)
    requires
        chrono_instant(expiry),
        chrono_instant(now),
    ensures
        client_view(r) == spec_check_client(cn_or_empty(opt_view(common_name)), expiry, allowed@, window, now),
{
    let cn = match common_name {
        Some(c) => c,
        None => String::new(),
    };
    if cn.as_str().is_empty() {
        let mut m = String::new();
        push_str(&mut m, "CN vazio no certificado cliente");
        return Err(RenewalError::InvalidClientCert(m));
    }
    if !station_allowed(allowed, cn.as_str()) {
        return Err(RenewalError::StationNotAllowed { station_id: cn });
    }
    let days = days_between(expiry, now);
    if days > window {
        return Err(RenewalError::TooEarlyToRenew { days_remaining: days, max_window: window });
    }
    Ok(ValidatedClient { station_id: cn, cert_expiry_utc: expiry, days_remaining: days })
}

/// Validates a station's current certificate (DER): its common name must be
/// on the allowlist and its expiry within the renewal window. A certificate
/// that does not parse is invalid, with the parser's message; else the
/// decision is `spec_check_client` at the time of the check.
pub fn validate_client_cert(cert_der: &[u8], allowed_station_ids: &[String], renewal_window_days_max: i64) -> (r: Result<ValidatedClient, RenewalError>)
    ensures
        spec_x509_facts(cert_der@) matches Err(e) ==> client_view(r) == Err::<(Seq<char>, UtcTimestamp, int), RenewalErrorView>(RenewalErrorView::InvalidClientCert(e)),
        r matches Ok(v) ==> representable(v.cert_expiry_utc),
        spec_x509_facts(cert_der@) matches Ok(f) ==> exists|fallback: UtcTimestamp, now: UtcTimestamp|
            #![trigger resolved_expiry(f.1, fallback), representable(now)]
            representable(fallback) && representable(now) && clock_reading(now) && client_view(r) == spec_check_client(
                cn_or_empty(f.0),
                resolved_expiry(f.1, fallback),
                allowed_station_ids@,
                renewal_window_days_max,
                now,
            ),
{
    let facts = match parse_certificate(cert_der) {
        Ok(f) => f,
        Err(e) => {
            return Err(RenewalError::InvalidClientCert(e));
        },
    };
    let CertFacts { common_name, not_after, .. } = facts;
    let expiry = if MIN_UTC_SECS <= not_after && not_after <= MAX_UTC_SECS {
        UtcTimestamp { secs: not_after, nanos: 0 }
    } else {
        utc_now()
    };
    let now = utc_now();
    let r = check_client(common_name, expiry, allowed_station_ids, renewal_window_days_max, now);
    proof {
        let w = if MIN_UTC_SECS <= not_after <= MAX_UTC_SECS { now } else { expiry };
        assert(resolved_expiry(not_after, w) == expiry);
        let f = spec_x509_facts(cert_der@)->Ok_0;
        assert(f.0 == opt_view(common_name) && f.1 == not_after);
        assert(representable(w) && representable(now) && client_view(r) == spec_check_client(
            cn_or_empty(opt_view(common_name)),
            resolved_expiry(not_after, w),
            allowed_station_ids@,
            renewal_window_days_max,
            now,
        ));
        assert(exists|fallback: UtcTimestamp, t: UtcTimestamp|
            #![trigger resolved_expiry(f.1, fallback), representable(t)]
            representable(fallback) && representable(t) && clock_reading(t) && client_view(r) == spec_check_client(
                cn_or_empty(f.0),
                resolved_expiry(f.1, fallback),
                allowed_station_ids@,
                renewal_window_days_max,
                t,
            ));
    }
    r
}

/// `rcgen::CertificateSigningRequestParams`: a parsed signing request, carried opaquely.
#[verifier::external_type_specification]
#[verifier::external_body]
pub struct ExCsrParams(CertificateSigningRequestParams);

/// The value of one attribute of a distinguished name, by its string kind.
pub enum DnText {
    Utf8(String),
    Printable(String),
    Ia5(String),
    /// A BMP, teletex or universal string.
    Other,
}

/// One attribute of a request's distinguished name.
pub struct DnEntry {
    pub is_common_name: bool,
    pub value: DnText,
}

/// An attribute by its values: whether it is the common name, the kind of
/// its string (0 UTF-8, 1 printable, 2 IA5, 3 other) and its text.
pub open spec fn dn_entry_view(e: DnEntry) -> (bool, u8, Seq<char>) {
    match e.value {
        DnText::Utf8(s) => (e.is_common_name, 0, s@),
        DnText::Printable(s) => (e.is_common_name, 1, s@),
        DnText::Ia5(s) => (e.is_common_name, 2, s@),
        DnText::Other => (e.is_common_name, 3, Seq::empty()),
    }
}

/// A parsed request's distinguished name by its values, or the error text.
pub open spec fn csr_view(r: Result<(CertificateSigningRequestParams, Vec<DnEntry>), String>) -> Result<Seq<(bool, u8, Seq<char>)>, Seq<char>> {
    match r {
        Ok(p) => Ok(p.1@.map_values(|e: DnEntry| dn_entry_view(e))),
        Err(e) => Err(e@),
    }
}

/// What `CertificateSigningRequestParams::from_pem` reads of a PEM signing
/// request: the attributes of its subject, in order, or the error's text.
pub uninterp spec fn spec_csr_subject(pem: Seq<char>) -> Result<Seq<(bool, u8, Seq<char>)>, Seq<char>>;

/// Parses a PEM certificate signing request and reads its subject.
///
/// Calls `rcgen::CertificateSigningRequestParams::from_pem`, then lists the
/// subject's attributes with `distinguished_name.iter()`, telling the common
/// name apart and converting each value by its string kind. The parse is
/// named, not stated.
#[verifier::external_body]
pub(crate) fn csr_from_pem(pem: &str) -> (r: Result<(CertificateSigningRequestParams, Vec<DnEntry>), String>)
    ensures
        csr_view(r) == spec_csr_subject(pem@),
{
    let csr = CertificateSigningRequestParams::from_pem(pem).map_err(|e| e.to_string())?;
    let mut dn = Vec::new();
    for (t, v) in csr.params.distinguished_name.iter() {
        let value = match v {
            DnValue::Utf8String(s) => DnText::Utf8(s.clone()),
            DnValue::PrintableString(s) => DnText::Printable(s.as_str().to_string()),
            DnValue::Ia5String(s) => DnText::Ia5(s.as_str().to_string()),
            _ => DnText::Other,
        };
        dn.push(DnEntry { is_common_name: *t == DnType::CommonName, value });
    }
    Ok((csr, dn))
}

/// Sets the validity period of a signing request.
///
/// Assigns the `not_before` and `not_after` fields of the request's
/// `rcgen::CertificateParams`; nothing is stated of the opaque request.
#[verifier::external_body]
pub(crate) fn set_validity(csr: &mut CertificateSigningRequestParams, not_before: OffsetDateTime, not_after: OffsetDateTime) {
    csr.params.not_before = not_before;
    csr.params.not_after = not_after;
}

/// Signs a request with an issuer certificate and key.
///
/// Calls `rcgen::CertificateSigningRequestParams::signed_by`; the error's
/// text on failure. Signatures may be randomized: nothing is stated of the
/// result.
#[verifier::external_body]
pub(crate) fn csr_signed_by(csr: CertificateSigningRequestParams, issuer: &Certificate, issuer_key: &KeyPair) -> Result<Certificate, String> {
    csr.signed_by(issuer, issuer_key).map_err(|e| e.to_string())
}

/// The text of a distinguished-name value: UTF-8, printable and IA5 strings
/// give their text; the rarer kinds give an empty text.
pub open spec fn dn_text(v: (bool, u8, Seq<char>)) -> Seq<char> {
    if v.1 <= 2 {
        v.2
    } else {
        Seq::empty()
    }
}

/// The text of a distinguished-name value.
pub fn dn_value_to_string(v: &DnText) -> (r: String)
    ensures
        r@ == dn_text(dn_entry_view(DnEntry { is_common_name: false, value: *v })),
{
    match v {
        DnText::Utf8(s) => to_owned_string(s.as_str()),
        DnText::Printable(s) => to_owned_string(s.as_str()),
        DnText::Ia5(s) => to_owned_string(s.as_str()),
        DnText::Other => String::new(),
    }
}

/// The request's common name: the text of its first common-name attribute,
/// or an empty text where it has none.
pub open spec fn csr_common_name(dn: Seq<(bool, u8, Seq<char>)>) -> Seq<char>
    decreases dn.len(),
{
    if dn.len() == 0 {
        Seq::empty()
    } else if dn[0].0 {
        dn_text(dn[0])
    } else {
        csr_common_name(dn.drop_first())
    }
}

/// The common name of a parsed request.
pub fn first_common_name(dn: &Vec<DnEntry>) -> (r: String)
    ensures
        r@ == csr_common_name(dn@.map_values(|e: DnEntry| dn_entry_view(e))),
{
    let ghost v = dn@.map_values(|e: DnEntry| dn_entry_view(e));
    let mut i: usize = 0;
    assert(v.skip(0) =~= v);
    while i < dn.len()
        invariant
            i <= dn@.len(),
            v == dn@.map_values(|e: DnEntry| dn_entry_view(e)),
            csr_common_name(v.skip(i as int)) == csr_common_name(v),
        decreases dn@.len() - i,
    {
        assert(v.skip(i as int)[0] == dn_entry_view(dn@[i as int]));
        assert(v.skip(i as int).drop_first() =~= v.skip(i + 1));
        if dn[i].is_common_name {
            let r = dn_value_to_string(&dn[i].value);
            return r;
        }
        i = i + 1;
    }
    assert(v.skip(i as int).len() == 0);
    String::new()
}

/// The refusal that a request gets before any signing: its parse error, or
/// a mismatch between its common name and the station's; `None` where it
/// goes on to signing.
pub open spec fn spec_sign_precheck(csr_pem: Seq<char>, expected: Seq<char>) -> Option<RenewalErrorView> {
    match spec_csr_subject(csr_pem) {
        Err(e) => Some(RenewalErrorView::CsrParseError(e)),
        Ok(dn) => if csr_common_name(dn) != expected {
            Some(RenewalErrorView::CnMismatch { csr_cn: csr_common_name(dn), client_cn: expected })
        } else {
            None
        },
    }
}

/// The refusal in a result, by its texts.
pub open spec fn sign_error(r: Result<String, RenewalError>) -> Option<RenewalErrorView> {
    match r {
        Ok(_) => None,
        Err(e) => Some(e@),
    }
}

/// The result is a signed certificate or a signing error.
pub open spec fn is_signing_outcome(r: Result<String, RenewalError>) -> bool {
    match r {
        Ok(_) => true,
        Err(e) => e is SigningError,
    }
}

/// Signs a station's renewal request (PEM) with the intermediate CA, for
/// `validity_days` from now. A request that does not parse is refused with
/// the parser's message; one whose common name is not the station's is
/// refused as a mismatch; the rest is signing, which succeeds with the new
/// certificate's PEM or fails with a signing error. A CA key or certificate
/// that rcgen cannot load (not PEM, or not a key or certificate) fails the
/// signing. The new certificate is read back before it is handed out: its
/// subject is the request's, attribute by attribute, with the station as
/// common name; its public key is the request's; its issuer's common name
/// is the CA's; it is not a CA; and it is valid for exactly `validity_days`
/// days.
pub fn sign_csr(
    csr_pem: &str,
    expected_station_id: &str,
    validity_days: u32,
    ca_cert_pem: &str,
    ca_key_pem: &str,
) -> (r: Result<String, RenewalError>)
    ensures
        (spec_sign_precheck(csr_pem@, expected_station_id@) matches Some(e) ==> sign_error(r) == Some(e)),
        (spec_sign_precheck(csr_pem@, expected_station_id@) is None ==> is_signing_outcome(r)),
        (spec_sign_precheck(csr_pem@, expected_station_id@) is None
            && (spec_pem_contents(ca_key_pem@) is Err || spec_pem_contents(ca_cert_pem@) is Err) ==> r is Err),
        (spec_sign_precheck(csr_pem@, expected_station_id@) is None
            && (spec_key_pem(ca_key_pem@) is None || spec_cert_params(ca_cert_pem@) is None) ==> r is Err),
        (r matches Ok(p) ==> pem_labelled(p@, "CERTIFICATE"@)
            && reads_as_signed(p@, expected_station_id@, pem_subject_cn(ca_cert_pem@), validity_days as nat)
            && signed_for_request(p@, csr_pem@) && reads_as_end_entity(p@)),
{
    let (mut csr, dn) = match csr_from_pem(csr_pem) {
        Ok(p) => p,
        Err(e) => {
            return Err(RenewalError::CsrParseError(e));
        },
    };
    let csr_cn = first_common_name(&dn);
    if !str_eq(csr_cn.as_str(), expected_station_id) {
        return Err(RenewalError::CnMismatch { csr_cn, client_cn: to_owned_string(expected_station_id) });
    }
    let now = offset_now_utc();
    let not_after = match offset_plus_days(&now, validity_days) {
        Some(t) => t,
        None => {
            let mut m = String::new();
            push_str(&mut m, "validade fora do intervalo de datas representável");
            return Err(RenewalError::SigningError(m));
        },
    };
    set_validity(&mut csr, now, not_after);
    let ca_key = match key_pair_from_pem(ca_key_pem) {
        Ok((k, _)) => k,
        Err(e) => {
            return Err(RenewalError::SigningError(prefixed("Carregando chave CA: ", e.as_str())));
        },
    };
    let ca_params = match ca_params_from_pem(ca_cert_pem) {
        Ok((p, _)) => p,
        Err(e) => {
            return Err(RenewalError::SigningError(prefixed("Carregando cert CA: ", e.as_str())));
        },
    };
    let ca_cert = match self_signed(ca_params, &ca_key) {
        Ok(c) => c,
        Err(e) => {
            return Err(RenewalError::SigningError(prefixed("Re-assinando CA: ", e.as_str())));
        },
    };
    let cert = match csr_signed_by(csr, &ca_cert, &ca_key) {
        Ok(c) => c,
        Err(e) => {
            return Err(RenewalError::SigningError(e));
        },
    };
    let pem = certificate_pem(&cert);
    let ca_cn = subject_cn_of(ca_cert_pem);
    if !check_signed(pem.as_str(), expected_station_id, &ca_cn, validity_days)
        || !check_signed_for_request(pem.as_str(), csr_pem) || !check_end_entity(pem.as_str()) {
        return Err(RenewalError::SigningError(to_owned_string("certificado emitido não corresponde ao pedido")));
    }
    Ok(pem)
}

/// A prefix followed by a text.
fn prefixed(prefix: &str, text: &str) -> (r: String)
    ensures
        r@ == prefix@ + text@,
{
    let mut r = String::new();
    push_str(&mut r, prefix);
    push_str(&mut r, text);
    r
}

/// The common name of a DER certificate, for logs: the subject's first
/// common name where the certificate parses and that name is a text.
pub fn extract_cn_from_der(cert_der: &[u8]) -> (r: Option<String>)
    ensures
        opt_view(r) == match spec_x509_facts(cert_der@) {
            Ok(f) => f.0,
            Err(_) => None,
        },
{
    match parse_certificate(cert_der) {
        Ok(f) => f.common_name,
        Err(_) => None,
    }
}

/// The expiry of a certificate issued at `now` for `validity_days` days.
pub open spec fn spec_expiry_from(now: UtcTimestamp, validity_days: nat) -> UtcTimestamp {
    UtcTimestamp { secs: (now.secs + validity_days * SECS_PER_DAY) as i64, nanos: now.nanos }
}

/// The expiry of a certificate issued at `now` for `validity_days` days,
/// where chrono can represent it.
pub fn cert_expiry_from(now: UtcTimestamp, validity_days: u32) -> (r: UtcTimestamp)
    requires
        representable(now),
        now.secs + validity_days * SECS_PER_DAY <= MAX_UTC_SECS,
    ensures
        r == spec_expiry_from(now, validity_days as nat),
        representable(r),
{
    let span: i64 = validity_days as i64 * SECS_PER_DAY;
    UtcTimestamp { secs: now.secs + span, nanos: now.nanos }
}

/// The expiry of a certificate issued at `now` for `validity_days` days,
/// where chrono represents it, else `None`.
pub open spec fn spec_expiry_at(now: UtcTimestamp, validity_days: nat) -> Option<UtcTimestamp> {
    if now.secs + validity_days * SECS_PER_DAY <= MAX_UTC_SECS {
        Some(spec_expiry_from(now, validity_days))
    } else {
        None
    }
}

/// The expiry of a certificate issued now for `validity_days` days; `None`
/// where that instant is beyond what chrono represents.
pub fn cert_expiry_utc(validity_days: u32) -> (r: Option<UtcTimestamp>)
    ensures
        exists|now: UtcTimestamp| #[trigger] representable(now) && r == spec_expiry_at(now, validity_days as nat),
        r matches Some(t) ==> representable(t),
{
    let now = utc_now();
    let span: i64 = validity_days as i64 * SECS_PER_DAY;
    if now.secs <= MAX_UTC_SECS - span {
        let t = cert_expiry_from(now, validity_days);
        assert(representable(now) && Some(t) == spec_expiry_at(now, validity_days as nat));
        Some(t)
    } else {
        assert(representable(now) && None::<UtcTimestamp> == spec_expiry_at(now, validity_days as nat));
        None
    }
}


/// The renewal window at the time of the check: a certificate of an
/// allowed station whose expiry is more than `window` days (and the
/// clock's few seconds of slack) after `now` is refused as too early, and
/// one whose expiry is at most `window` days after `now` (less the slack)
/// is accepted.
pub proof fn law_renewal_window(cn: Seq<char>, expiry: UtcTimestamp, allowed: Seq<String>, window: i64, now: UtcTimestamp)
    requires
        chrono_instant(expiry),
        chrono_instant(now),
        cn.len() > 0,
        is_allowed(allowed, cn),
    ensures
        expiry.secs - now.secs >= (window + 1) * 86400 + 3
            ==> spec_check_client(cn, expiry, allowed, window, now) is Err
            && spec_check_client(cn, expiry, allowed, window, now)->Err_0 is TooEarlyToRenew,
        expiry.secs - now.secs + 3 <= window * 86400 ==> spec_check_client(cn, expiry, allowed, window, now) is Ok,
{
    lemma_whole_secs_close(expiry, now);
    let x = whole_secs_since(expiry, now);
    let d = whole_days(x);
    let w = window as int;
    if x >= (w + 1) * 86400 {
        assert(d > w) by (nonlinear_arith)
            requires
                x >= (w + 1) * 86400,
                x >= 0 ==> d == x / 86400,
                x < 0 ==> d == -((-x) / 86400),
        ;
    }
    if x <= w * 86400 {
        assert(d <= w) by (nonlinear_arith)
            requires
                x <= w * 86400,
                x >= 0 ==> d == x / 86400,
                x < 0 ==> d == -((-x) / 86400),
        ;
    }
}

} // verus!
