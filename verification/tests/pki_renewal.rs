use osc_uploader::clock::UtcTimestamp;
use osc_uploader::pki::api::{
    answer_validated, process_renewal, AppState, HealthResponse, RenewFields, RenewReply,
};
use osc_uploader::pki::audit::{PkiAuditEvent, PkiAuditLogger};
use osc_uploader::pki::ca::{
    cert_expiry_from, cert_expiry_utc, check_client, extract_cn_from_der, sign_csr,
    validate_client_cert, RenewalError, ValidatedClient,
};
use osc_uploader::pki::config::PkiConfig;
use osc_uploader::pki::init::ca_chain_pem;
use rcgen::{BasicConstraints, CertificateParams, DnType, IsCa, KeyPair};
use std::path::PathBuf;
use std::sync::Arc;

fn days_from_now(days: i64) -> time::OffsetDateTime {
    time::OffsetDateTime::now_utc() + time::Duration::days(days)
}

/// A client certificate for `cn` expiring in `days_left` days, as (PEM, DER).
fn client_cert(cn: &str, days_left: i64) -> (String, Vec<u8>) {
    let key = KeyPair::generate().unwrap();
    let mut params = CertificateParams::new(vec![]).unwrap();
    params.distinguished_name.push(DnType::CommonName, cn);
    params.not_before = days_from_now(-300);
    params.not_after = days_from_now(days_left) + time::Duration::hours(1);
    let cert = params.self_signed(&key).unwrap();
    (cert.pem(), cert.der().to_vec())
}

fn ca() -> (String, String) {
    let key = KeyPair::generate().unwrap();
    let mut params = CertificateParams::new(vec![]).unwrap();
    params.distinguished_name.push(DnType::CommonName, "OSC Intermediate CA");
    params.is_ca = IsCa::Ca(BasicConstraints::Constrained(0));
    params.not_before = days_from_now(-1);
    params.not_after = days_from_now(1000);
    let cert = params.self_signed(&key).unwrap();
    (cert.pem(), key.serialize_pem())
}

fn csr(cn: &str) -> String {
    let key = KeyPair::generate().unwrap();
    let mut params = CertificateParams::new(vec![]).unwrap();
    params.distinguished_name.push(DnType::CommonName, cn);
    params.distinguished_name.push(DnType::OrganizationName, "MedFasee");
    params.serialize_request(&key).unwrap().pem().unwrap()
}

fn allowed() -> Vec<String> {
    vec!["SE1".to_string(), "SE2".to_string()]
}

#[test]
fn certificate_facts_are_read() {
    let (pem, der) = client_cert("SE1", 10);
    assert_eq!(pem::parse(&pem).unwrap().into_contents(), der);
    assert_eq!(extract_cn_from_der(&der).as_deref(), Some("SE1"));
    assert_eq!(extract_cn_from_der(b"junk"), None);
}

#[test]
fn client_certificate_validation() {
    let (_, der) = client_cert("SE1", 10);
    let v = validate_client_cert(&der, &allowed(), 60).unwrap();
    assert_eq!(v.station_id, "SE1");
    assert!(v.days_remaining == 10 || v.days_remaining == 9);
    let (_, der) = client_cert("SE1", 100);
    match validate_client_cert(&der, &allowed(), 60) {
        Err(RenewalError::TooEarlyToRenew { days_remaining, max_window }) => {
            assert!(days_remaining >= 99);
            assert_eq!(max_window, 60);
        }
        _ => panic!("expected too early"),
    }
    let (_, der) = client_cert("SE9", 10);
    assert!(matches!(
        validate_client_cert(&der, &allowed(), 60),
        Err(RenewalError::StationNotAllowed { station_id }) if station_id == "SE9"
    ));
    assert!(matches!(validate_client_cert(b"junk", &allowed(), 60), Err(RenewalError::InvalidClientCert(_))));
}

#[test]
fn client_check_rules() {
    let now = UtcTimestamp { secs: 1_000_000, nanos: 0 };
    let exp = UtcTimestamp { secs: 1_000_000 + 61 * 86_400, nanos: 0 };
    let e = check_client(None, exp, &allowed(), 60, now).err().unwrap();
    assert_eq!(e.message(), "Certificado cliente inválido: CN vazio no certificado cliente");
    let e = check_client(Some("".to_string()), exp, &allowed(), 60, now).err().unwrap();
    assert!(matches!(e, RenewalError::InvalidClientCert(_)));
    let e = check_client(Some("SE1".to_string()), exp, &allowed(), 60, now).err().unwrap();
    assert_eq!(e.message(), "Renovação prematura: 61 dias restantes, janela máxima: 60 dias");
    let ok = check_client(Some("SE2".to_string()), exp, &allowed(), 61, now).ok().unwrap();
    assert_eq!(ok.days_remaining, 61);
    assert_eq!(ok.cert_expiry_utc, exp);
    let past = UtcTimestamp { secs: 1_000_000 - 86_401, nanos: 0 };
    let ok = check_client(Some("SE2".to_string()), past, &allowed(), 0, now).ok().unwrap();
    assert_eq!(ok.days_remaining, -1);
}

#[test]
fn error_messages() {
    let e = RenewalError::CnMismatch { csr_cn: "A".to_string(), client_cn: "B".to_string() };
    assert_eq!(e.message(), "CN do CSR 'A' não corresponde ao CN do cliente 'B'");
    assert_eq!(RenewalError::StationNotAllowed { station_id: "X".to_string() }.message(), "Estação não autorizada: X");
    assert_eq!(RenewalError::CsrParseError("p".to_string()).message(), "Erro ao parsear CSR: p");
    assert_eq!(RenewalError::SigningError("s".to_string()).message(), "Erro ao assinar certificado: s");
    assert_eq!(
        RenewalError::TooEarlyToRenew { days_remaining: -3, max_window: 60 }.message(),
        "Renovação prematura: -3 dias restantes, janela máxima: 60 dias"
    );
}

#[test]
fn csr_signing() {
    let (ca_cert, ca_key) = ca();
    let pem = sign_csr(&csr("SE1"), "SE1", 365, &ca_cert, &ca_key).unwrap();
    let der = pem::parse(&pem).unwrap().into_contents();
    assert_eq!(extract_cn_from_der(&der).as_deref(), Some("SE1"));
    let (_, parsed) = x509_parser::parse_x509_certificate(&der).unwrap();
    let not_after = parsed.validity().not_after.timestamp();
    let now = chrono::Utc::now().timestamp();
    assert!((not_after - now - 365 * 86_400).abs() < 120);
    match sign_csr(&csr("SE2"), "SE1", 365, &ca_cert, &ca_key) {
        Err(RenewalError::CnMismatch { csr_cn, client_cn }) => {
            assert_eq!(csr_cn, "SE2");
            assert_eq!(client_cn, "SE1");
        }
        _ => panic!("expected mismatch"),
    }
    assert!(matches!(sign_csr("garbage", "SE1", 365, &ca_cert, &ca_key), Err(RenewalError::CsrParseError(_))));
    assert!(matches!(sign_csr(&csr("SE1"), "SE1", 365, &ca_cert, "bad key"), Err(RenewalError::SigningError(m)) if m.starts_with("Carregando chave CA: ")));
}

#[test]
fn expiry_of_issued_certificates() {
    let now = UtcTimestamp { secs: 100, nanos: 5 };
    assert_eq!(cert_expiry_from(now, 2), UtcTimestamp { secs: 100 + 2 * 86_400, nanos: 5 });
    let t = cert_expiry_utc(365).unwrap();
    assert!((t.secs - chrono::Utc::now().timestamp() - 365 * 86_400).abs() < 60);
    assert_eq!(cert_expiry_utc(u32::MAX), None);
}

fn state() -> AppState {
    let (ca_cert_pem, ca_key_pem) = ca();
    AppState {
        config: Arc::new(PkiConfig {
            listen_addr: "0.0.0.0:8444".to_string(),
            ca_cert_pem: PathBuf::from("ca.pem"),
            ca_key_pem: PathBuf::from("ca-key.pem"),
            server_cert_pem: PathBuf::from("s.pem"),
            server_key_pem: PathBuf::from("s-key.pem"),
            ca_bundle_pem: PathBuf::from("chain.pem"),
            allowed_station_ids: allowed(),
            renewal_window_days_max: 60,
            issued_cert_validity_days: 365,
            audit_dir: PathBuf::from("audit"),
            log_dir: PathBuf::from("logs"),
        }),
        audit: Arc::new(PkiAuditLogger::new(PathBuf::from("audit"))),
        ca_cert_pem,
        ca_key_pem,
    }
}

fn fields(station: Option<&str>, cert: Option<String>, csr_pem: Option<String>) -> RenewFields {
    RenewFields { station_id: station.map(|s| s.to_string()), current_cert_pem: cert, csr_pem }
}

/// A renewal whose TLS client presented the current certificate it sends.
fn renew(s: &AppState, f: RenewFields, request_id: &str) -> osc_uploader::pki::api::RenewOutcome {
    let peer = f.current_cert_pem.as_ref().and_then(|p| pem::parse(p).ok()).map(|p| p.into_contents());
    process_renewal(s, f, request_id, peer)
}

fn rejection(reply: &RenewReply) -> (u16, String) {
    match reply {
        RenewReply::Rejected { status, body } => (*status, body.message.clone().unwrap_or_default()),
        RenewReply::Issued { .. } => panic!("expected a refusal"),
    }
}

#[test]
fn renewal_is_issued_within_the_window() {
    let s = state();
    let (cert, _) = client_cert("SE1", 10);
    let o = renew(&s, fields(Some("SE1"), Some(cert), Some(csr("SE1"))), "R1");
    match &o.reply {
        RenewReply::Issued { cert_pem } => assert!(cert_pem.contains("BEGIN CERTIFICATE")),
        _ => panic!("expected issue"),
    }
    assert_eq!(o.audit.len(), 2);
    assert!(matches!(&o.audit[0], PkiAuditEvent::RenewalRequested { request_id, station_id, .. } if request_id == "R1" && station_id == "SE1"));
    assert!(matches!(&o.audit[1], PkiAuditEvent::RenewalIssued { station_id, .. } if station_id == "SE1"));
    match &o.audit[1] {
        PkiAuditEvent::RenewalIssued { new_cert_expiry_utc, .. } => {
            let t = chrono::DateTime::parse_from_rfc3339(new_cert_expiry_utc).unwrap();
            assert!(new_cert_expiry_utc.ends_with("+00:00"));
            let expected = chrono::Utc::now().timestamp() + 365 * 86_400;
            assert!((t.timestamp() - expected).abs() < 120);
        }
        _ => panic!("expected the issue record"),
    }
    match &o.audit[0] {
        PkiAuditEvent::RenewalRequested { client_cert_expiry_utc, .. } => {
            let t = chrono::DateTime::parse_from_rfc3339(client_cert_expiry_utc).unwrap();
            let expected = chrono::Utc::now().timestamp() + 10 * 86_400 + 3600;
            assert!((t.timestamp() - expected).abs() < 120);
        }
        _ => panic!("expected the request record"),
    }
}

#[test]
fn renewal_refusals() {
    let s = state();
    let o = renew(&s, fields(None, None, None), "R");
    assert_eq!(rejection(&o.reply), (400, "station_id ausente".to_string()));
    let o = renew(&s, fields(Some("SE1"), Some(String::new()), None), "R");
    assert_eq!(rejection(&o.reply), (400, "current_cert_pem ausente".to_string()));
    let o = renew(&s, fields(Some("SE1"), Some("x".to_string()), None), "R");
    assert_eq!(rejection(&o.reply), (400, "csr_pem ausente".to_string()));
    let o = renew(&s, fields(Some("SE1"), Some("x".to_string()), Some("y".to_string())), "R");
    assert_eq!(rejection(&o.reply), (400, "current_cert_pem inválido".to_string()));
    assert!(o.audit.is_empty());

    let (early, _) = client_cert("SE1", 100);
    let o = renew(&s, fields(Some("SE1"), Some(early), Some(csr("SE1"))), "R");
    let (status, msg) = rejection(&o.reply);
    assert_eq!(status, 409);
    assert!(msg.ends_with("dias restantes — renovação só permitida nos últimos 60 dias"));
    assert!(matches!(&o.audit[0], PkiAuditEvent::RenewalRejected { reason, .. } if reason.ends_with("janela máxima: 60 dias")));

    let (stranger, _) = client_cert("SE9", 10);
    let o = renew(&s, fields(Some("SE9"), Some(stranger), Some(csr("SE9"))), "R");
    assert_eq!(rejection(&o.reply), (403, "Estação não autorizada".to_string()));
    assert_eq!(o.audit.len(), 1);

    let (other, _) = client_cert("SE2", 10);
    let o = renew(&s, fields(Some("SE1"), Some(other), Some(csr("SE1"))), "R");
    assert_eq!(rejection(&o.reply), (403, "station_id não corresponde ao CN do certificado".to_string()));
    assert!(o.audit.is_empty());

    let (cert, _) = client_cert("SE1", 10);
    let o = renew(&s, fields(Some("SE1"), Some(cert), Some(csr("SE2"))), "R");
    assert_eq!(rejection(&o.reply), (403, "CN do CSR não corresponde ao certificado cliente".to_string()));
    assert_eq!(o.audit.len(), 2);
    assert!(matches!(&o.audit[1], PkiAuditEvent::RenewalRejected { reason, .. } if reason == "CN mismatch: CSR tem 'SE2', cliente é 'SE1'"));

    let (cert, _) = client_cert("SE1", 10);
    let o = renew(&s, fields(Some("SE1"), Some(cert), Some("bad csr".to_string())), "R");
    assert_eq!(rejection(&o.reply), (500, "Erro interno ao assinar certificado".to_string()));
}

#[test]
fn pki_misc() {
    assert_eq!(ca_chain_pem("INT\n", "ROOT\n"), "INT\nROOT\n");
    let h = HealthResponse::ok("9.9.9");
    assert_eq!(h.status, "ok");
}

fn validated(station: &str) -> ValidatedClient {
    ValidatedClient {
        station_id: station.to_string(),
        cert_expiry_utc: UtcTimestamp { secs: 1_700_000_000, nanos: 0 },
        days_remaining: 12,
    }
}

#[test]
fn answers_after_validation() {
    let s = state();
    let too_early = RenewalError::TooEarlyToRenew { days_remaining: 90, max_window: 60 };
    let o = answer_validated(&s, "R", "SE1", "x", Err(too_early));
    assert_eq!(
        rejection(&o.reply),
        (409, "90 dias restantes — renovação só permitida nos últimos 60 dias".to_string())
    );
    assert!(matches!(&o.audit[..], [PkiAuditEvent::RenewalRejected { reason, station_id, .. }]
        if reason == "90 dias restantes — janela máxima: 60 dias" && station_id == "SE1"));

    let o = answer_validated(&s, "R", "SE1", "x", Err(RenewalError::StationNotAllowed { station_id: "SE9".to_string() }));
    assert_eq!(rejection(&o.reply), (403, "Estação não autorizada".to_string()));
    assert!(matches!(&o.audit[..], [PkiAuditEvent::RenewalRejected { station_id, .. }] if station_id == "SE9"));

    let o = answer_validated(&s, "R", "SE1", "x", Err(RenewalError::InvalidClientCert("bad".to_string())));
    assert_eq!(rejection(&o.reply), (400, "Certificado inválido: Certificado cliente inválido: bad".to_string()));
    assert!(o.audit.is_empty());

    let o = answer_validated(&s, "R", "SE1", "x", Ok(validated("SE2")));
    assert_eq!(rejection(&o.reply), (403, "station_id não corresponde ao CN do certificado".to_string()));
    assert!(o.audit.is_empty());

    let o = answer_validated(&s, "R", "SE1", "not a csr", Ok(validated("SE1")));
    assert_eq!(rejection(&o.reply), (500, "Erro interno ao assinar certificado".to_string()));
    assert_eq!(o.audit.len(), 2);
    match &o.audit[0] {
        PkiAuditEvent::RenewalRequested { client_cert_expiry_utc, days_remaining, .. } => {
            assert_eq!(client_cert_expiry_utc, "2023-11-14T22:13:20+00:00");
            assert_eq!(*days_remaining, 12);
        }
        _ => panic!("expected the request record"),
    }
    assert!(matches!(&o.audit[1], PkiAuditEvent::RenewalRejected { reason, .. } if reason.starts_with("Erro interno: Erro ao parsear CSR: ")));

    let o = answer_validated(&s, "R", "SE1", &csr("SE2"), Ok(validated("SE1")));
    assert_eq!(rejection(&o.reply), (403, "CN do CSR não corresponde ao certificado cliente".to_string()));
    assert!(matches!(&o.audit[1], PkiAuditEvent::RenewalRejected { reason, .. } if reason == "CN mismatch: CSR tem 'SE2', cliente é 'SE1'"));

    let o = answer_validated(&s, "R", "SE1", &csr("SE1"), Ok(validated("SE1")));
    assert!(matches!(o.reply, RenewReply::Issued { .. }));
    assert!(matches!(&o.audit[1], PkiAuditEvent::RenewalIssued { station_id, .. } if station_id == "SE1"));
}

#[test]
fn expiry_of_new_certificates() {
    let t = cert_expiry_utc(365).unwrap();
    assert!((t.secs - chrono::Utc::now().timestamp() - 365 * 86_400).abs() < 60);
    let t0 = cert_expiry_utc(0).unwrap();
    assert!((t0.secs - chrono::Utc::now().timestamp()).abs() < 60);
    assert_eq!(cert_expiry_utc(u32::MAX), None);
}

#[test]
fn renewal_with_an_unreadable_ca_is_an_internal_error() {
    let mut s = state();
    s.ca_key_pem = "not a key".to_string();
    let (cert, _) = client_cert("SE1", 10);
    let o = renew(&s, fields(Some("SE1"), Some(cert.clone()), Some(csr("SE1"))), "R");
    assert_eq!(rejection(&o.reply), (500, "Erro interno ao assinar certificado".to_string()));
    assert_eq!(o.audit.len(), 2);
    assert!(matches!(&o.audit[1], PkiAuditEvent::RenewalRejected { reason, .. } if reason.starts_with("Erro interno: Erro ao assinar certificado: Carregando chave CA: ")));
    let mut s = state();
    s.ca_cert_pem = "not a certificate".to_string();
    let o = renew(&s, fields(Some("SE1"), Some(cert), Some(csr("SE1"))), "R");
    assert_eq!(rejection(&o.reply).0, 500);
}

#[test]
fn issued_renewal_is_the_stations_certificate_from_the_ca() {
    let s = state();
    let (cert, _) = client_cert("SE1", 10);
    let o = renew(&s, fields(Some("SE1"), Some(cert), Some(csr("SE1"))), "R");
    let issued = match o.reply {
        RenewReply::Issued { cert_pem } => cert_pem,
        _ => panic!("expected issue"),
    };
    let der = pem::parse(&issued).unwrap().into_contents();
    let (_, c) = x509_parser::parse_x509_certificate(&der).unwrap();
    let subject = c.subject().iter_common_name().next().unwrap().as_str().unwrap().to_string();
    let ca_der = pem::parse(&s.ca_cert_pem).unwrap().into_contents();
    let (_, ca_cert) = x509_parser::parse_x509_certificate(&ca_der).unwrap();
    let ca_cn = ca_cert.subject().iter_common_name().next().unwrap().as_str().unwrap().to_string();
    let issuer = c.issuer().iter_common_name().next().unwrap().as_str().unwrap().to_string();
    let span = c.validity().not_after.timestamp() - c.validity().not_before.timestamp();
    assert_eq!(subject, "SE1");
    assert_eq!(issuer, ca_cn);
    assert_ne!(issued, s.ca_cert_pem);
    assert_eq!(span, 365 * 86_400);
}

#[test]
fn renewal_needs_the_tls_client_to_hold_the_current_certificate() {
    let s = state();
    let (cert, der) = client_cert("SE1", 10);
    let o = process_renewal(&s, fields(Some("SE1"), Some(cert.clone()), Some(csr("SE1"))), "R", None);
    assert_eq!(rejection(&o.reply), (403, "Certificado TLS do cliente não corresponde a current_cert_pem".to_string()));
    assert!(o.audit.is_empty());
    let (_, other) = client_cert("SE1", 10);
    let o = process_renewal(&s, fields(Some("SE1"), Some(cert.clone()), Some(csr("SE1"))), "R", Some(other));
    assert_eq!(rejection(&o.reply).0, 403);
    let o = process_renewal(&s, fields(Some("SE1"), Some(cert), Some(csr("SE1"))), "R", Some(der));
    assert!(matches!(o.reply, RenewReply::Issued { .. }));
}
