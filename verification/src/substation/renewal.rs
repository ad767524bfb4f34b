//! The agent's certificate renewal decisions: how many days its certificate
//! has left, whether a renewal was asked for recently, and whether to ask
//! for one now.
use crate::certs::{pem_contents, parse_certificate, spec_pem_contents, spec_x509_facts};
use crate::clock::{
    UtcTimestamp, utc_now, representable, parse_rfc3339, spec_parse_rfc3339, days_between, hours_between,
    whole_secs_since, whole_days, whole_hours, MIN_UTC_SECS, MAX_UTC_SECS,
    SECS_PER_DAY, SECS_PER_HOUR, chrono_instant, NANOS_PER_SEC, clock_reading, lemma_whole_secs_close,
};
use crate::issuance::{
    in_context_text, pem_labelled, certificate_params, generate_key_pair, in_context, is_ascii, is_ascii_text, key_pair_pem,
    profile_view, request_pem, serialize_request, texts, CaKind, CertProfile, ExtUse, KeyUse, ProfileValues,
};
use crate::pki::ca::{
    csr_from_pem, csr_view, dn_entry_view, resolved_expiry, spec_csr_subject, spec_sign_precheck, DnEntry, DnText,
    csr_common_name,
};
use crate::text::str_eq;
use crate::readback::{check_request, check_request_key, request_as, request_key_of};
use crate::substation::config::AgentConfig;
use crate::text::{trim, spec_trim, push_str, opt_view, to_owned_string};
use std::sync::Arc;
use vstd::prelude::*;

verus! {

/// The name of the file that marks a renewal request as recently sent.
pub const STAMP_FILENAME: &'static str = "renewal_pending.stamp";

/// Hours during which a renewal request is not repeated.
pub const STAMP_THROTTLE_HOURS: i64 = 24;

/// Checks and renews the agent's certificate.
pub struct RenewalTask {
    pub config: Arc<AgentConfig>,
}

/// Why the days left on a certificate could not be read.
pub enum CertReadError {
    /// The text is not PEM; the decoder's message.
    Pem(String),
    /// The PEM block is not an X.509 certificate; the parser's message.
    X509(String),
}

/// What a renewal check decides.
#[derive(Clone, Copy, Debug, PartialEq, Eq, Structural)]
pub enum RenewalDecision {
    /// The certificate has more days left than the threshold.
    NotDue,
    /// A renewal was asked for within the throttle period: wait.
    Throttled,
    /// Ask the PKI server for a new certificate now.
    Renew,
}

/// The decision for a certificate with `days_remaining` days left, given
/// the threshold and whether a renewal was asked for recently.
pub open spec fn spec_decide(days_remaining: i64, threshold: i64, stamp_recent: bool) -> RenewalDecision {
    if days_remaining > threshold {
        RenewalDecision::NotDue
    } else if stamp_recent {
        RenewalDecision::Throttled
    } else {
        RenewalDecision::Renew
    }
}

/// A stamp written at `stamp` is recent at `now`: less than the throttle
/// period has passed, in whole hours as chrono counts them.
pub open spec fn spec_stamp_recent_at(stamp: UtcTimestamp, now: UtcTimestamp) -> bool {
    whole_hours(whole_secs_since(now, stamp)) < STAMP_THROTTLE_HOURS
}

/// A stamp file's contents are recent at `now`: it was read, its trimmed
/// text is an RFC 3339 instant, and that instant is recent.
pub open spec fn spec_stamp_recent(content: Option<Seq<char>>, now: UtcTimestamp) -> bool {
    match content {
        None => false,
        Some(c) => match spec_parse_rfc3339(spec_trim(c)) {
            None => false,
            Some(p) => spec_stamp_recent_at(UtcTimestamp { secs: p.0, nanos: p.1 }, now),
        },
    }
}

impl RenewalTask {
    /// A renewal task for an agent configuration.
    pub fn new(config: Arc<AgentConfig>) -> (r: Self)
        ensures
            r.config == config,
    {
        RenewalTask { config }
    }

    /// Whether to renew: not while the certificate has more days left than
    /// the configured threshold; not while a renewal asked for recently is
    /// pending; else now.
    pub fn decide(&self, days_remaining: i64, stamp_recent: bool) -> (r: RenewalDecision)
        ensures
            r == spec_decide(days_remaining, self.config.renewal.renewal_days_before_expiry, stamp_recent),
    {
        if days_remaining > self.config.renewal.renewal_days_before_expiry {
            RenewalDecision::NotDue
        } else if stamp_recent {
            RenewalDecision::Throttled
        } else {
            RenewalDecision::Renew
        }
    }
}

/// Whether a stamp written at `stamp` is recent at `now`.
pub fn stamp_recent_at(stamp: UtcTimestamp, now: UtcTimestamp) -> (r: bool)
    requires
        chrono_instant(stamp),
        chrono_instant(now),
    ensures
        r == spec_stamp_recent_at(stamp, now),
{
    let hours = hours_between(now, stamp);
    hours < STAMP_THROTTLE_HOURS
}

/// Whether the stamp file's contents (where it could be read) mark a
/// renewal asked for within the throttle period before `now`.
pub fn is_stamp_recent(content: Option<String>, now: UtcTimestamp) -> (r: bool)
    requires
        chrono_instant(now),
    ensures
        r == spec_stamp_recent(opt_view(content), now),
{
    match content {
        None => false,
        Some(c) => {
            let t = trim(c.as_str());
            match parse_rfc3339(t.as_str()) {
                None => false,
                Some(stamp) => stamp_recent_at(stamp, now),
            }
        },
    }
}

/// The days left on a certificate with the given `notAfter` second, as
/// chrono counts them from `now`, with `fallback` standing for an expiry
/// that chrono cannot represent.
pub open spec fn spec_days_left(not_after: i64, fallback: UtcTimestamp, now: UtcTimestamp) -> int {
    whole_days(whole_secs_since(resolved_expiry(not_after, fallback), now))
}

/// How many days the agent's PEM certificate has left. A text that is not
/// PEM, or a block that is not a certificate, is an error with the
/// decoder's or parser's message; else the count is the whole days from
/// the time of the check (a reading of the system clock, so not before the
/// Unix epoch) to the certificate's expiry.
pub fn cert_days_remaining(cert_pem: &str) -> (r: Result<i64, CertReadError>)
    ensures
        spec_pem_contents(cert_pem@) matches Err(e) ==> (r matches Err(CertReadError::Pem(m)) && m@ == e),
        (spec_pem_contents(cert_pem@) is Ok && spec_x509_facts(spec_pem_contents(cert_pem@)->Ok_0) is Err) ==> (r matches Err(CertReadError::X509(m))
            && m@ == spec_x509_facts(spec_pem_contents(cert_pem@)->Ok_0)->Err_0),
        (spec_pem_contents(cert_pem@) is Ok && spec_x509_facts(spec_pem_contents(cert_pem@)->Ok_0) is Ok) ==> (r is Ok && exists|fallback: UtcTimestamp, now: UtcTimestamp|
            #![trigger resolved_expiry(spec_x509_facts(spec_pem_contents(cert_pem@)->Ok_0)->Ok_0.1, fallback), representable(now)]
            representable(fallback) && representable(now) && clock_reading(now)
            && r->Ok_0 == spec_days_left(spec_x509_facts(spec_pem_contents(cert_pem@)->Ok_0)->Ok_0.1, fallback, now)),
{
    let der = match pem_contents(cert_pem) {
        Ok(d) => d,
        Err(e) => {
            return Err(CertReadError::Pem(e));
        },
    };
    let facts = match parse_certificate(der.as_slice()) {
        Ok(f) => f,
        Err(e) => {
            return Err(CertReadError::X509(e));
        },
    };
    let not_after = facts.not_after;
    let expiry = if MIN_UTC_SECS <= not_after && not_after <= MAX_UTC_SECS {
        UtcTimestamp { secs: not_after, nanos: 0 }
    } else {
        utc_now()
    };
    let now = utc_now();
    let days = days_between(expiry, now);
    proof {
        let w = if MIN_UTC_SECS <= not_after <= MAX_UTC_SECS { now } else { expiry };
        assert(resolved_expiry(not_after, w) == expiry);
        let na = spec_x509_facts(spec_pem_contents(cert_pem@)->Ok_0)->Ok_0.1;
        assert(na == not_after);
        assert(representable(w) && representable(now) && clock_reading(now) && days == spec_days_left(na, w, now));
    }
    Ok(days)
}

/// The new certificate from the PKI server's answer: its body where the
/// status is a success, else an error with the status and the body.
pub fn interpret_pki_reply(success: bool, status_text: &str, body: String) -> (r: Result<String, String>)
    ensures
        success ==> r == Ok::<String, String>(body),
        !success ==> (r matches Err(e) && e@ == "Servidor PKI retornou "@ + status_text@ + ": "@ + body@),
{
    if success {
        Ok(body)
    } else {
        let mut e = String::new();
        push_str(&mut e, "Servidor PKI retornou ");
        push_str(&mut e, status_text);
        push_str(&mut e, ": ");
        push_str(&mut e, body.as_str());
        Err(e)
    }
}

/// A renewal goes ahead only when the certificate is within the threshold
/// of its expiry and no renewal was asked for during the throttle period.
pub proof fn law_renews_only_when_due_and_unthrottled(days_remaining: i64, threshold: i64, stamp_recent: bool)
    ensures
        spec_decide(days_remaining, threshold, stamp_recent) == RenewalDecision::Renew <==> (days_remaining
            <= threshold && !stamp_recent),
{
}

/// A stamp written at the very moment of the check is recent.
pub proof fn law_fresh_stamp_is_recent(now: UtcTimestamp)
    requires
        chrono_instant(now),
    ensures
        spec_stamp_recent_at(now, now),
{
}


/// The key uses of a station's certificate.
pub open spec fn station_key_uses() -> Seq<KeyUse> {
    seq![KeyUse::DigitalSignature, KeyUse::KeyEncipherment]
}

/// The DNS names of a station's request: its id, where that is ASCII.
pub open spec fn station_dns_names(station_id: Seq<char>) -> Seq<Seq<char>> {
    if is_ascii_text(station_id) {
        seq![station_id]
    } else {
        Seq::empty()
    }
}

/// What a station's renewal request asks for: a certificate named after
/// the station, of MedFasee's "Subestacoes" unit, not a CA, for digital
/// signatures, key encipherment and TLS client authentication, with the
/// station id as its DNS name where the id is ASCII.
pub open spec fn station_values(station_id: Seq<char>) -> ProfileValues {
    (station_id, "MedFasee"@, Some("Subestacoes"@), CaKind::EndEntity, station_key_uses(), seq![ExtUse::ClientAuth], Seq::<Seq<char>>::empty(), station_dns_names(station_id), None::<u32>)
}

/// The profile of a station's renewal request: `station_values`.
pub fn renewal_profile(station_id: &str) -> (p: CertProfile)
    ensures
        profile_view(p) == station_values(station_id@),
{
    let uses = vec![KeyUse::DigitalSignature, KeyUse::KeyEncipherment];
    assert(uses@ =~= station_key_uses());
    let ext = vec![ExtUse::ClientAuth];
    assert(ext@ =~= seq![ExtUse::ClientAuth]);
    let mut dns: Vec<String> = Vec::new();
    if is_ascii(station_id) {
        dns.push(to_owned_string(station_id));
    }
    let p = CertProfile {
        common_name: to_owned_string(station_id),
        organization: to_owned_string("MedFasee"),
        unit: Some(to_owned_string("Subestacoes")),
        ca: CaKind::EndEntity,
        key_usages: uses,
        extended_usages: ext,
        names: Vec::new(),
        dns_names: dns,
        validity_days: None,
    };
    assert(texts(p.names@) =~= Seq::<Seq<char>>::empty());
    assert(texts(p.dns_names@) =~= station_dns_names(station_id@));
    p
}

/// The subject of a station's request, by its attributes in order: the
/// station as the common name, then the organization "MedFasee" and the
/// unit "Subestacoes", all UTF-8 strings.
pub open spec fn station_subject(station_id: Seq<char>) -> Seq<(bool, u8, Seq<char>)> {
    seq![(true, 0u8, station_id), (false, 0u8, "MedFasee"@), (false, 0u8, "Subestacoes"@)]
}

/// Whether one attribute is a UTF-8 string with this text, and the common
/// name exactly where `is_cn` says.
fn entry_is(e: &DnEntry, is_cn: bool, text: &str) -> (r: bool)
    ensures
        r == (dn_entry_view(*e) == (is_cn, 0u8, text@)),
{
    match &e.value {
        DnText::Utf8(s) => e.is_common_name == is_cn && str_eq(s.as_str(), text),
        _ => false,
    }
}

/// Whether a parsed request's subject is the station's.
fn subject_is_station(dn: &Vec<DnEntry>, station_id: &str) -> (r: bool)
    ensures
        r == (dn@.map_values(|e: DnEntry| dn_entry_view(e)) == station_subject(station_id@)),
{
    let ghost v = dn@.map_values(|e: DnEntry| dn_entry_view(e));
    if dn.len() != 3 {
        assert(v.len() != station_subject(station_id@).len());
        return false;
    }
    let a = entry_is(&dn[0], true, station_id);
    let b = entry_is(&dn[1], false, "MedFasee");
    let c = entry_is(&dn[2], false, "Subestacoes");
    assert(v[0] == dn_entry_view(dn@[0]) && v[1] == dn_entry_view(dn@[1]) && v[2] == dn_entry_view(dn@[2]));
    if a && b && c {
        assert(v =~= station_subject(station_id@));
    } else {
        assert(v[0] != station_subject(station_id@)[0] || v[1] != station_subject(station_id@)[1]
            || v[2] != station_subject(station_id@)[2]);
    }
    a && b && c
}

/// A fresh key pair and the signing request of the station's renewal,
/// both in PEM: `(csr_pem, key_pem)`.
///
/// The request always encodes (its one DNS name is ASCII); the key is
/// random and its generation or the request's signature may fail, with
/// the error in its context. The texts are a PEM signing request and a
/// PEM private key. The request is read back before it is handed out: its
/// subject is the station's, so the PKI server's checks before signing
/// pass it for that station; it asks for the station profile's subject
/// (common name, organization "MedFasee", unit "Subestacoes"), key usages
/// and TLS client authentication, and for no CA; and it was made with the
/// key returned beside it.
pub fn renewal_request(station_id: &str) -> (r: Result<(String, String), String>)
    ensures
        r matches Ok(p) ==> pem_labelled(p.0@, "CERTIFICATE REQUEST"@) && pem_labelled(p.1@, "PRIVATE KEY"@)
            && spec_csr_subject(p.0@) == Ok::<Seq<(bool, u8, Seq<char>)>, Seq<char>>(station_subject(station_id@))
            && spec_sign_precheck(p.0@, station_id@) is None
            && request_as(p.0@, station_values(station_id@))
            && request_key_of(p.1@, p.0@),
        r matches Err(e) ==> in_context_text(e@, "Gerando novo par de chaves"@) || in_context_text(e@, "Gerando CSR"@),
{
    let key = match generate_key_pair() {
        Ok(k) => k,
        Err(e) => {
            return Err(in_context("Gerando novo par de chaves", e));
        },
    };
    let profile = renewal_profile(station_id);
    let params = match certificate_params(&profile) {
        Ok(p) => p,
        Err(e) => {
            return Err(in_context("Gerando CSR", e));
        },
    };
    let csr = match serialize_request(&params, &key) {
        Ok(c) => c,
        Err(e) => {
            return Err(in_context("Gerando CSR", e));
        },
    };
    let csr_pem = match request_pem(&csr) {
        Ok(t) => t,
        Err(e) => {
            return Err(in_context("Serializando CSR para PEM", e));
        },
    };
    let matches = match csr_from_pem(csr_pem.as_str()) {
        Ok((_, dn)) => subject_is_station(&dn, station_id),
        Err(_) => false,
    };
    let key_pem = key_pair_pem(&key);
    if !matches || !check_request(csr_pem.as_str(), &profile) || !check_request_key(key_pem.as_str(), csr_pem.as_str()) {
        return Err(in_context("Gerando CSR", to_owned_string("CSR gerado não corresponde à estação")));
    }
    let ghost subject = station_subject(station_id@);
    assert(subject[0].0);
    assert(csr_common_name(subject) == station_id@);
    Ok((csr_pem, key_pem))
}


/// A renewal stamp a day or more before `now` (past the clock's few
/// seconds of leap-second and fraction slack) never throttles: however old
/// the stamp, the agent asks again.
pub proof fn law_day_old_stamp_is_not_recent(stamp: UtcTimestamp, now: UtcTimestamp)
    requires
        chrono_instant(stamp),
        chrono_instant(now),
        now.secs >= stamp.secs + STAMP_THROTTLE_HOURS * SECS_PER_HOUR + 3,
    ensures
        !spec_stamp_recent_at(stamp, now),
{
    lemma_whole_secs_close(now, stamp);
    let x = whole_secs_since(now, stamp);
    assert(x >= 86400);
    assert(x / 3600 >= 24) by (nonlinear_arith)
        requires
            x >= 86400,
    ;
}

/// A renewal stamp written less than a day before `now` (or after it)
/// throttles: the agent does not ask again within the day.
pub proof fn law_stamp_within_day_is_recent(stamp: UtcTimestamp, now: UtcTimestamp)
    requires
        chrono_instant(stamp),
        chrono_instant(now),
        now.secs + 4 <= stamp.secs + STAMP_THROTTLE_HOURS * SECS_PER_HOUR,
    ensures
        spec_stamp_recent_at(stamp, now),
{
    lemma_whole_secs_close(now, stamp);
    let x = whole_secs_since(now, stamp);
    assert(x < 86400);
    if x >= 0 {
        assert(x / 3600 < 24) by (nonlinear_arith)
            requires
                0 <= x < 86400,
        ;
    }
}

/// The days left of a certificate whose expiry chrono represents are the
/// whole days from `now` to its `notAfter`, within a day: the result times
/// a day's seconds is within a day (and the clock's slack) of the seconds
/// between them.
pub proof fn law_days_left_track_expiry(not_after: i64, fallback: UtcTimestamp, now: UtcTimestamp)
    requires
        MIN_UTC_SECS <= not_after <= MAX_UTC_SECS,
        chrono_instant(now),
    ensures
        not_after - now.secs - 86403 < spec_days_left(not_after, fallback, now) * 86400 < not_after - now.secs + 86403,
{
    let e = UtcTimestamp { secs: not_after, nanos: 0 };
    lemma_whole_secs_close(e, now);
    let x = whole_secs_since(e, now);
    let d = whole_days(x);
    if x >= 0 {
        assert(x - 86400 < d * 86400 <= x) by (nonlinear_arith)
            requires
                x >= 0,
                d == x / 86400,
        ;
    } else {
        assert(x <= d * 86400 < x + 86400) by (nonlinear_arith)
            requires
                x < 0,
                d == -((-x) / 86400),
        ;
    }
}

} // verus!
