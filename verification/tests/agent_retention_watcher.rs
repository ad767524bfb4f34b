use osc_uploader::clock::UtcTimestamp;
use osc_uploader::substation::config::{AgentConfig, DiskConfig, RenewalConfig, RetentionConfig};
use osc_uploader::substation::retention::{
    expired_entries, get_disk_free_mb, get_disk_usage_pct, retention_cutoff, usage_is_computable,
    DiskInfo, DiskLevel, EntryInfo, RetentionManager,
};
use osc_uploader::substation::watcher::{
    classify_ext, ComtradeExt, Debouncer, InboxEntry, InboxWatcher,
};
use std::path::PathBuf;

pub fn agent_config() -> AgentConfig {
    AgentConfig {
        station_id: "SE_XANXERE".to_string(),
        device_id: "F60_01".to_string(),
        inbox_dir: PathBuf::from("inbox"),
        queue_dir: PathBuf::from("queue"),
        sent_dir: PathBuf::from("sent"),
        error_dir: PathBuf::from("error"),
        spool_dir: PathBuf::from("spool"),
        log_dir: PathBuf::from("logs"),
        state_dir: PathBuf::from("state"),
        server_url: "https://ons".to_string(),
        client_cert_pem: PathBuf::from("c.pem"),
        client_key_pem: PathBuf::from("k.pem"),
        ca_bundle_pem: PathBuf::from("ca.pem"),
        max_retries: 10,
        retry_initial_backoff_seconds: 30,
        retry_max_backoff_seconds: 3600,
        upload_timeout_seconds: 60,
        watch_debounce_ms: 2000,
        retention: RetentionConfig {
            sent_retention_days: 30,
            sent_retention_max_days: 90,
            error_retention_days: 60,
            log_retention_days: 30,
            cleanup_interval_minutes: 60,
        },
        disk: DiskConfig {
            drive: "D:".to_string(),
            warn_threshold_pct: 70,
            reduce_retention_threshold_pct: 80,
            force_cleanup_threshold_pct: 90,
            min_free_mb: 1024,
        },
        renewal: RenewalConfig {
            pki_server_url: "https://pki".to_string(),
            renewal_days_before_expiry: 30,
            check_interval_hours: 6,
            new_key_path: PathBuf::from("new-key.pem"),
            new_cert_path: PathBuf::from("new-cert.pem"),
        },
    }
}

const GIB: u64 = 1024 * 1024 * 1024;

fn disk(mount: &str, total: u64, avail: u64) -> DiskInfo {
    DiskInfo { mount_point: mount.to_string(), total_space: total, available_space: avail }
}

#[test]
fn retention_follows_disk_watermarks() {
    let m = RetentionManager::new(agent_config());
    let cases = [
        (50, 90, false, DiskLevel::Normal),
        (70, 90, true, DiskLevel::Normal),
        (80, 30, true, DiskLevel::Reduced),
        (90, 7, true, DiskLevel::Critical),
    ];
    for (used_pct, days, alert, level) in cases {
        let disks = vec![disk("d:\\", 100 * GIB, (100 - used_pct) * GIB)];
        let s = m.run_cleanup(&disks);
        assert_eq!(s.disk_pct, used_pct);
        assert_eq!(s.sent_days, days);
        assert_eq!(s.alert, alert);
        assert_eq!(s.level, level);
        assert_eq!(s.error_days, 60);
        assert_eq!(s.log_days, 30);
    }
}

#[test]
fn low_free_space_forces_critical_retention() {
    let m = RetentionManager::new(agent_config());
    let disks = vec![disk("D:\\", 2 * GIB, 512 * 1024 * 1024)];
    let s = m.run_cleanup(&disks);
    assert_eq!(s.disk_pct, 75);
    assert_eq!(s.free_mb, 512);
    assert_eq!(s.level, DiskLevel::Critical);
    assert_eq!(s.sent_days, 7);
}

#[test]
fn sent_retention_never_exceeds_the_configured_maximum() {
    let mut cfg = agent_config();
    cfg.retention.sent_retention_days = 30;
    cfg.retention.sent_retention_max_days = 5;
    let m = RetentionManager::new(cfg);
    for (used_pct, level) in [(50u64, DiskLevel::Normal), (80, DiskLevel::Reduced), (95, DiskLevel::Critical)] {
        let disks = vec![disk("D:\\", 100 * GIB, (100 - used_pct) * GIB)];
        let s = m.run_cleanup(&disks);
        assert_eq!(s.level, level);
        assert_eq!(s.sent_days, 5);
    }
    let mut cfg = agent_config();
    cfg.retention.sent_retention_days = 120;
    cfg.retention.sent_retention_max_days = 90;
    let m = RetentionManager::new(cfg);
    let s = m.run_cleanup(&vec![disk("D:", 100 * GIB, 15 * GIB)]);
    assert_eq!(s.level, DiskLevel::Reduced);
    assert_eq!(s.sent_days, 90);
}

#[test]
fn unknown_drive_reads_as_empty_and_unbounded() {
    let disks = vec![disk("/", 100, 10), disk("C:\\", 100, 10)];
    assert_eq!(get_disk_usage_pct(&disks, "D:"), 0);
    assert_eq!(get_disk_free_mb(&disks, "D:"), u64::MAX);
    let m = RetentionManager::new(agent_config());
    let s = m.run_cleanup(&disks);
    assert_eq!(s.level, DiskLevel::Normal);
    assert_eq!(s.sent_days, 90);
}

#[test]
fn first_matching_disk_with_size_counts() {
    let disks = vec![disk("d:", 0, 0), disk("D:\\vol", 200, 50)];
    assert_eq!(get_disk_usage_pct(&disks, "d:"), 75);
    assert_eq!(get_disk_free_mb(&disks, "d:"), 0);
    let over = vec![disk("D:", 100, 300)];
    assert_eq!(get_disk_usage_pct(&over, "D:"), 0);
}

#[test]
fn usage_overflow_is_detected() {
    let huge = u64::MAX / 100 + 1;
    assert!(!usage_is_computable(&vec![disk("D:", u64::MAX, u64::MAX - huge)], "D:"));
    assert!(usage_is_computable(&vec![disk("D:", u64::MAX, u64::MAX - huge + 1)], "D:"));
    assert!(usage_is_computable(&vec![disk("C:", u64::MAX, 0)], "D:"));
    assert!(usage_is_computable(&vec![disk("D:", 0, 0), disk("d:", 200, 50)], "D:"));
}

#[test]
fn cutoff_and_expired_entries() {
    let now = UtcTimestamp { secs: 10 * 86_400, nanos: 500 };
    let cutoff = retention_cutoff(now, 7);
    assert_eq!(cutoff, UtcTimestamp { secs: 3 * 86_400, nanos: 500 });
    let e = |is_dir: bool, is_file: bool, secs: i64, nanos: u32| EntryInfo {
        is_dir,
        is_file,
        modified: UtcTimestamp { secs, nanos },
    };
    let entries = vec![
        e(true, false, 86_400, 0),
        e(false, true, 86_400, 0),
        e(true, false, 3 * 86_400, 499),
        e(true, false, 3 * 86_400, 500),
        e(true, false, 5 * 86_400, 0),
    ];
    assert_eq!(expired_entries(&entries, true, cutoff), vec![0, 2]);
    assert_eq!(expired_entries(&entries, false, cutoff), vec![1]);
    let longer = retention_cutoff(now, 9);
    assert_eq!(expired_entries(&entries, true, longer), vec![0]);
}

#[test]
fn debounce_hands_on_quiet_events_with_cfg() {
    let mut d = Debouncer::new();
    d.on_path("cfg", "EV1".to_string(), 1_000);
    d.on_path("DAT", "EV1".to_string(), 1_500);
    d.on_path("dat", "EV2".to_string(), 1_200);
    d.on_path("txt", "EV3".to_string(), 1_200);
    assert_eq!(d.events.len(), 2);
    assert!(d.events[0].exts.cfg && d.events[0].exts.dat);
    assert_eq!(d.events[0].last_seen, 1_500);
    let ready = d.on_tick(2_000, 1_000);
    assert!(ready.is_empty());
    assert_eq!(d.events.len(), 2);
    let ready = d.on_tick(2_300, 1_000);
    assert!(ready.is_empty());
    assert_eq!(d.events.len(), 1);
    assert_eq!(d.events[0].stem, "EV1");
    let ready = d.on_tick(2_500, 1_000);
    assert_eq!(ready, vec!["EV1".to_string()]);
    assert!(d.events.is_empty());
}

#[test]
fn debounce_clock_going_back_saturates() {
    let mut d = Debouncer::new();
    d.on_path("CFG", "EV".to_string(), 5_000);
    assert!(d.on_tick(1_000, 1).is_empty());
    assert_eq!(d.on_tick(1_000, 0), vec!["EV".to_string()]);
}

#[test]
fn comtrade_extensions() {
    assert_eq!(classify_ext("cfg"), Some(ComtradeExt::Cfg));
    assert_eq!(classify_ext("inf"), Some(ComtradeExt::Inf));
    assert_eq!(classify_ext("CFG"), None);
    assert_eq!(classify_ext(""), None);
}

#[test]
fn startup_scan_takes_cfg_stems_once() {
    let e = |ext: Option<&str>, stem: Option<&str>| InboxEntry {
        extension: ext.map(|s| s.to_string()),
        stem: stem.map(|s| s.to_string()),
    };
    let entries = vec![
        e(Some("cfg"), Some("A")),
        e(Some("dat"), Some("B")),
        e(Some("CFG"), Some("C")),
        e(Some("cfg"), None),
        e(Some("cfg"), Some("A")),
        e(None, Some("D")),
        e(Some("cfg"), Some("E")),
    ];
    assert_eq!(InboxWatcher::scan_stems(&entries), vec!["A".to_string(), "E".to_string()]);
}

#[test]
fn event_file_candidates() {
    assert_eq!(
        InboxWatcher::event_file_names("EV9"),
        vec!["EV9.cfg", "EV9.dat", "EV9.hdr", "EV9.inf"]
    );
    let w = InboxWatcher::new(
        std::sync::Arc::new(agent_config()),
        std::sync::Arc::new(osc_uploader::substation::queue::LocalQueue::new(PathBuf::from("q"))),
    );
    assert_eq!(w.config.station_id, "SE_XANXERE");
}
