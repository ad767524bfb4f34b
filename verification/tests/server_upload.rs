use osc_uploader::digest::sha256_hex;
use osc_uploader::ons::api::{check_upload, response_after_store, HealthResponse, UploadFields, UploadStep, UploadedPart};
use osc_uploader::ons::audit::{AuditEvent, AuditLogger};
use osc_uploader::ons::config::{RateLimitConfig, ServerConfig};
use osc_uploader::ons::rate::RateLimiter;
use osc_uploader::ons::storage::{StorageManager, UploadDisposition, UploadFile};
use osc_uploader::ons::tls::extract_client_cn;
use osc_uploader::substation::sender::{interpret_ack, UploadAck};
use std::path::PathBuf;

fn config() -> ServerConfig {
    ServerConfig {
        listen_addr: "0.0.0.0:8443".to_string(),
        server_cert_pem: PathBuf::from("s.pem"),
        server_key_pem: PathBuf::from("k.pem"),
        ca_bundle_pem: PathBuf::from("ca.pem"),
        staging_dir: PathBuf::from("staging"),
        repository_dir: PathBuf::from("repository"),
        quarantine_dir: PathBuf::from("quarantine"),
        audit_dir: PathBuf::from("audit"),
        log_dir: PathBuf::from("logs"),
        max_upload_size_mb: 200,
        allowed_station_ids: vec!["SE1".to_string(), "SE2".to_string()],
        upload_timeout_seconds: 60,
        rate_limit: RateLimitConfig { max_uploads_per_minute: 10, burst_size: 5 },
    }
}

fn storage() -> StorageManager {
    StorageManager::new(
        PathBuf::from("staging"),
        PathBuf::from("repository"),
        PathBuf::from("quarantine"),
        AuditLogger::new(PathBuf::from("audit")),
    )
}

fn fields(station: Option<&str>, event: Option<&str>, manifest: Option<&str>) -> UploadFields {
    UploadFields {
        station_id: station.map(|s| s.to_string()),
        device_id: Some("DEV".to_string()),
        event_id: event.map(|s| s.to_string()),
        timestamp_utc: None,
        manifest: manifest.map(|s| s.to_string()),
        files: vec![
            UploadedPart { name: "a.cfg".to_string(), data: b"abc".to_vec() },
            UploadedPart { name: "a.dat".to_string(), data: b"xyz".to_vec() },
        ],
    }
}

fn rejected(step: &UploadStep) -> (u16, String, usize) {
    match step {
        UploadStep::Respond { audit, status, body } => {
            (*status, body.message.clone().unwrap_or_default(), audit.len())
        }
        UploadStep::Store { .. } => panic!("expected an answer"),
    }
}

#[test]
fn missing_fields_are_refused_in_order() {
    let c = config();
    let s = storage();
    let step = check_upload(&c, &s, &mut RateLimiter::new(), 0, fields(None, None, None), "U", &[]);
    assert_eq!(rejected(&step), (400, "station_id ausente".to_string(), 0));
    let step = check_upload(&c, &s, &mut RateLimiter::new(), 0, fields(Some("SE1"), Some(""), Some("{}")), "U", &[]);
    assert_eq!(rejected(&step), (400, "event_id ausente".to_string(), 0));
    let step = check_upload(&c, &s, &mut RateLimiter::new(), 0, fields(Some("SE1"), Some("EV"), None), "U", &[]);
    assert_eq!(rejected(&step), (400, "manifest ausente".to_string(), 0));
}

#[test]
fn unknown_station_is_forbidden_and_audited() {
    let step = check_upload(&config(), &storage(), &mut RateLimiter::new(), 0, fields(Some("SE9"), Some("EV"), Some("{}")), "U", &[]);
    assert_eq!(rejected(&step), (403, "Estação não autorizada".to_string(), 1));
    match step {
        UploadStep::Respond { audit, body, .. } => {
            assert_eq!(body.status, "rejected");
            assert!(!body.hash_verified);
            assert!(matches!(&audit[0], AuditEvent::UploadRejected { station_id, .. } if station_id == "SE9"));
        }
        _ => unreachable!(),
    }
}

#[test]
fn duplicate_event_is_answered_without_storing() {
    let entries = vec!["other".to_string(), "EV7".to_string()];
    let step = check_upload(&config(), &storage(), &mut RateLimiter::new(), 0, fields(Some("SE1"), Some("EV7"), Some("{}")), "U", &entries);
    match step {
        UploadStep::Respond { audit, status, body } => {
            assert_eq!(status, 200);
            assert_eq!(body.status, "duplicate");
            assert!(body.hash_verified);
            assert_eq!(body.message.as_deref(), Some("Evento já recebido anteriormente"));
            assert!(matches!(&audit[0], AuditEvent::DuplicateDetected { .. }));
        }
        _ => panic!("expected duplicate"),
    }
}

#[test]
fn invalid_manifest_is_refused() {
    let step = check_upload(&config(), &storage(), &mut RateLimiter::new(), 0, fields(Some("SE1"), Some("EV"), Some("not json")), "U", &[]);
    let (status, msg, audits) = rejected(&step);
    assert_eq!(status, 400);
    assert!(msg.starts_with("Manifesto inválido: "));
    assert!(msg.len() > "Manifesto inválido: ".len());
    assert_eq!(audits, 0);
}

#[test]
fn valid_upload_goes_to_storage_with_declared_hashes() {
    let manifest = format!(
        "{{\"files\":[{{\"name\":\"a.cfg\",\"sha256\":\"{}\"}},{{\"name\":\"a.cfg\",\"sha256\":\"second\"}},{{\"name\":\"a.dat\",\"sha256\":7}}]}}",
        sha256_hex(b"abc")
    );
    let step = check_upload(&config(), &storage(), &mut RateLimiter::new(), 0, fields(Some("SE1"), Some("EV"), Some(&manifest)), "U", &[]);
    match step {
        UploadStep::Store { received, event_id, station_id, files, .. } => {
            assert_eq!(event_id, "EV");
            assert_eq!(station_id, "SE1");
            assert_eq!(files[0].declared_sha256, sha256_hex(b"abc"));
            assert_eq!(files[1].declared_sha256, "");
            match received {
                AuditEvent::UploadReceived { file_count, total_bytes, client_cn, .. } => {
                    assert_eq!(file_count, 2);
                    assert_eq!(total_bytes, 6);
                    assert_eq!(client_cn, "unknown");
                }
                _ => panic!("expected received event"),
            }
        }
        _ => panic!("expected storage"),
    }
}

#[test]
fn manifest_without_files_declares_nothing() {
    let step = check_upload(&config(), &storage(), &mut RateLimiter::new(), 0, fields(Some("SE1"), Some("EV"), Some("[1]")), "U", &[]);
    match step {
        UploadStep::Store { files, .. } => assert!(files.iter().all(|f| f.declared_sha256.is_empty())),
        _ => panic!("expected storage"),
    }
}

#[test]
fn hash_check_decides_quarantine() {
    let s = storage();
    let good = vec![UploadFile { name: "a".to_string(), data: b"abc".to_vec(), declared_sha256: sha256_hex(b"abc") }];
    let check = s.check_files(&good);
    assert!(check.all_hashes_ok);
    assert!(check.files[0].hash_ok);
    assert_eq!(check.total_bytes, 3);
    assert_eq!(StorageManager::disposition(&check), UploadDisposition::Repository);
    let bad = vec![
        UploadFile { name: "a".to_string(), data: b"abc".to_vec(), declared_sha256: sha256_hex(b"abc") },
        UploadFile { name: "b".to_string(), data: b"abd".to_vec(), declared_sha256: sha256_hex(b"abc") },
    ];
    let check = s.check_files(&bad);
    assert!(!check.all_hashes_ok);
    assert!(check.files[0].hash_ok && !check.files[1].hash_ok);
    assert_eq!(check.files[1].sha256_verified, sha256_hex(b"abd"));
    assert_eq!(StorageManager::disposition(&check), UploadDisposition::Quarantine);
    assert_eq!(StorageManager::quarantined_error(), "Hash mismatch: upload movido para quarentena");
    match StorageManager::quarantined_event("U", "EV", "SE1") {
        AuditEvent::UploadQuarantined { reason, .. } => assert_eq!(reason, "Hash mismatch em um ou mais arquivos"),
        _ => panic!(),
    }
}

#[test]
fn duplicate_detection_by_name() {
    let s = storage();
    assert!(s.is_duplicate(&["EV6".to_string(), "EV7".to_string()], "EV7"));
    assert!(!s.is_duplicate(&["SE1_X_EV7".to_string()], "EV7"));
    assert!(!s.is_duplicate(&["EV10".to_string()], "EV1"));
    assert!(!s.is_duplicate(&["EV1".to_string()], "EV10"));
    assert!(!s.is_duplicate(&["EV1".to_string()], ""));
    assert!(!s.is_duplicate(&[], "EV7"));
}

#[test]
fn repository_path_is_station_date_event() {
    let s = storage();
    assert_eq!(
        s.repository_path("SE1", "2024-01-15", "EV7"),
        PathBuf::from("repository").join("SE1").join("2024-01-15").join("EV7")
    );
}

#[test]
fn rate_limit_refuses_beyond_the_burst_and_refills() {
    let mut c = config();
    c.rate_limit = RateLimitConfig { max_uploads_per_minute: 1, burst_size: 2 };
    let s = storage();
    let mut limiter = RateLimiter::new();
    for event in ["EV1", "EV2"] {
        let step = check_upload(&c, &s, &mut limiter, 1_000, fields(Some("SE1"), Some(event), Some("{}")), "U", &[]);
        assert!(matches!(step, UploadStep::Store { .. }));
    }
    let step = check_upload(&c, &s, &mut limiter, 1_000, fields(Some("SE1"), Some("EV3"), Some("{}")), "U", &[]);
    assert_eq!(rejected(&step), (429, "Limite de uploads excedido".to_string(), 1));
    match &step {
        UploadStep::Respond { audit, .. } => {
            assert!(matches!(&audit[0], AuditEvent::UploadRejected { station_id, .. } if station_id == "SE1"));
        }
        _ => unreachable!(),
    }
    let other = check_upload(&c, &s, &mut limiter, 1_000, fields(Some("SE2"), Some("EV3"), Some("{}")), "U", &[]);
    assert!(matches!(other, UploadStep::Store { .. }));
    let later = check_upload(&c, &s, &mut limiter, 61_000, fields(Some("SE1"), Some("EV3"), Some("{}")), "U", &[]);
    assert!(matches!(later, UploadStep::Store { .. }));
    let again = check_upload(&c, &s, &mut limiter, 61_000, fields(Some("SE1"), Some("EV4"), Some("{}")), "U", &[]);
    assert_eq!(rejected(&again).0, 429);
}

#[test]
fn refused_stations_do_not_spend_the_budget() {
    let mut c = config();
    c.rate_limit = RateLimitConfig { max_uploads_per_minute: 1, burst_size: 1 };
    let s = storage();
    let mut limiter = RateLimiter::new();
    let step = check_upload(&c, &s, &mut limiter, 0, fields(Some("SE1"), None, Some("{}")), "U", &[]);
    assert_eq!(rejected(&step).0, 400);
    let step = check_upload(&c, &s, &mut limiter, 0, fields(Some("SE1"), Some("EV1"), Some("{}")), "U", &[]);
    assert!(matches!(step, UploadStep::Store { .. }));
    assert!(!limiter.request_upload("SE1", 0, &c.rate_limit));
    assert!(limiter.request_upload("SE1", 60_000, &c.rate_limit));
}

#[test]
fn answers_after_storing() {
    let (status, body) = response_after_store("U", Ok("repo/SE1/2024-01-01/EV".to_string()));
    assert_eq!(status, 200);
    assert_eq!(body.status, "accepted");
    assert!(body.hash_verified);
    assert_eq!(body.stored_path.as_deref(), Some("repo/SE1/2024-01-01/EV"));
    let (status, body) = response_after_store("U", Err("Hash mismatch: upload movido para quarentena".to_string()));
    assert_eq!(status, 500);
    assert!(!body.hash_verified);
    assert_eq!(body.message.as_deref(), Some("Erro interno: Hash mismatch: upload movido para quarentena"));
}

#[test]
fn misc_server_items() {
    assert_eq!(extract_client_cn(b"anything"), None);
    let h = HealthResponse::ok("1.2.3");
    assert_eq!(h.status, "ok");
    assert_eq!(h.version, "1.2.3");
}

#[test]
fn client_cn_is_read_from_the_certificate() {
    let mut params = rcgen::CertificateParams::new(Vec::<String>::new()).unwrap();
    params.distinguished_name.push(rcgen::DnType::CommonName, "SE_XANXERE");
    let key = rcgen::KeyPair::generate().unwrap();
    let cert = params.self_signed(&key).unwrap();
    assert_eq!(extract_client_cn(cert.der().as_ref()), Some("SE_XANXERE".to_string()));
    let mut bare = rcgen::CertificateParams::new(Vec::<String>::new()).unwrap();
    bare.distinguished_name = rcgen::DistinguishedName::new();
    let unnamed = bare.self_signed(&key).unwrap();
    assert_eq!(extract_client_cn(unnamed.der().as_ref()), None);
}

fn agent_reading(status: u16, body: &osc_uploader::ons::api::UploadResponse) -> Result<String, String> {
    interpret_ack(UploadAck {
        success: (200..=299).contains(&status),
        status_text: status.to_string(),
        body_text: "{}".to_string(),
        upload_id: Some(body.upload_id.clone()),
        hash_verified: Some(body.hash_verified),
    })
}

#[test]
fn agent_counts_accepted_and_duplicate_answers_as_sent() {
    let dup = check_upload(&config(), &storage(), &mut RateLimiter::new(), 0, fields(Some("SE1"), Some("EV9"), Some("{}")), "U1", &["EV9".to_string()]);
    match dup {
        UploadStep::Respond { status, body, .. } => {
            assert_eq!(status, 200);
            assert_eq!(agent_reading(status, &body), Ok("U1".to_string()));
        }
        _ => panic!("expected a duplicate answer"),
    }
    let refused = check_upload(&config(), &storage(), &mut RateLimiter::new(), 0, fields(Some("SE7"), Some("EV9"), Some("{}")), "U2", &[]);
    match refused {
        UploadStep::Respond { status, body, .. } => {
            assert_eq!(status, 403);
            assert!(agent_reading(status, &body).is_err());
        }
        _ => panic!("expected a refusal"),
    }
    let (status, body) = response_after_store("U3", Ok("repo/SE1/EV".to_string()));
    assert_eq!(agent_reading(status, &body), Ok("U3".to_string()));
    let (status, body) = response_after_store("U4", Err("Hash mismatch".to_string()));
    assert_eq!(status, 500);
    assert!(agent_reading(status, &body).is_err());
}
