use osc_uploader::clock::UtcTimestamp;
use osc_uploader::substation::manifest::{EventManifest, FileData};
use osc_uploader::substation::queue::{LocalQueue, QueueEntry, QueueItem, QueueItemStatus};
use osc_uploader::substation::sender::{
    begin_attempt, interpret_ack, record_failure, record_sent, AttemptPlan, RetryPolicy, UploadAck,
};
use std::path::PathBuf;

fn manifest(event_id: &str) -> EventManifest {
    EventManifest::build_at(
        "SE1",
        "DEV",
        &Vec::new(),
        "inbox",
        UtcTimestamp { secs: 0, nanos: 0 },
        "T",
        &format!("{}________", event_id),
    )
}

fn item(event_id: &str, secs: i64, status: QueueItemStatus, attempts: u32) -> QueueItem {
    let mut it = QueueItem::new_pending(
        manifest(event_id),
        vec![PathBuf::from("spool/a.cfg")],
        UtcTimestamp { secs, nanos: 0 },
    );
    it.event_id = event_id.to_string();
    it.status = status;
    it.attempts = attempts;
    it
}

fn entry(ext: &str, it: Option<QueueItem>) -> QueueEntry {
    QueueEntry { extension: Some(ext.to_string()), item: it }
}

#[test]
fn pending_items_are_sorted_by_queue_time_stably() {
    let q = LocalQueue::new(PathBuf::from("queue"));
    let entries = vec![
        entry("json", Some(item("c", 30, QueueItemStatus::Pending, 0))),
        entry("json", Some(item("a", 10, QueueItemStatus::Sending, 1))),
        entry("json", Some(item("sent", 5, QueueItemStatus::Sent, 1))),
        entry("json", Some(item("failed", 5, QueueItemStatus::Failed, 11))),
        entry("tmp", Some(item("other", 1, QueueItemStatus::Pending, 0))),
        entry("json", None),
        entry("json", Some(item("b1", 20, QueueItemStatus::Pending, 0))),
        entry("json", Some(item("b2", 20, QueueItemStatus::Pending, 0))),
    ];
    let pending = q.select_pending(entries);
    let ids: Vec<&str> = pending.iter().map(|i| i.event_id.as_str()).collect();
    assert_eq!(ids, vec!["a", "b1", "b2", "c"]);
}

#[test]
fn count_pending_without_listing_is_zero() {
    let q = LocalQueue::new(PathBuf::from("queue"));
    assert_eq!(q.count_pending(None), 0);
    let entries = vec![
        entry("json", Some(item("x", 1, QueueItemStatus::Pending, 0))),
        entry("json", Some(item("y", 2, QueueItemStatus::Failed, 3))),
    ];
    assert_eq!(q.count_pending(Some(entries)), 1);
}

#[test]
fn queue_file_name() {
    assert_eq!(LocalQueue::item_file_name("EV1"), "EV1.json");
}

fn policy(max_retries: u32) -> RetryPolicy {
    RetryPolicy { max_retries, initial_backoff_seconds: 30, max_backoff_seconds: 3600 }
}

#[test]
fn backoff_grows_from_30_to_3600() {
    let p = policy(10);
    let waits: Vec<u64> = (1..=10).map(|a| p.backoff_seconds(a)).collect();
    assert_eq!(waits, vec![30, 60, 120, 240, 480, 960, 1920, 3600, 3600, 3600]);
}

#[test]
fn backoff_doubles_below_cap_and_never_shrinks() {
    let p = RetryPolicy { max_retries: 20, initial_backoff_seconds: 5, max_backoff_seconds: 1_000_000 };
    let mut prev = 0;
    for a in 1..=20u32 {
        let b = p.backoff_seconds(a);
        assert!(b >= prev);
        assert!(b <= p.max_backoff_seconds);
        if a > 1 && b < p.max_backoff_seconds {
            assert_eq!(b, 2 * prev);
        }
        prev = b;
    }
}

#[test]
fn attempts_plan() {
    let p = policy(10);
    assert!(p.can_plan(0) && p.can_plan(10) && p.can_plan(500));
    assert_eq!(p.plan_attempt(0), AttemptPlan::Send { wait_seconds: None });
    assert_eq!(p.plan_attempt(3), AttemptPlan::Send { wait_seconds: Some(120) });
    assert_eq!(p.plan_attempt(9), AttemptPlan::Send { wait_seconds: Some(3600) });
    assert_eq!(p.plan_attempt(10), AttemptPlan::GiveUp);
    assert_eq!(p.plan_attempt(11), AttemptPlan::GiveUp);
    assert_eq!(p.plan_attempt(500), AttemptPlan::GiveUp);
}

#[test]
fn an_event_is_sent_at_most_max_retries_times() {
    let p = policy(3);
    let mut it = item("e", 1, QueueItemStatus::Pending, 0);
    let mut sends = 0;
    loop {
        match p.plan_attempt(it.attempts) {
            AttemptPlan::Send { .. } => {
                sends += 1;
                it = record_failure(begin_attempt(it), "timeout".to_string());
            }
            AttemptPlan::GiveUp => break,
        }
    }
    assert_eq!(sends, 3);
    assert_eq!(p.give_up(it).status, QueueItemStatus::Failed);
    let none = policy(0);
    assert_eq!(none.plan_attempt(0), AttemptPlan::GiveUp);
}

#[test]
fn plans_that_overflow_are_detected() {
    let no_retry = RetryPolicy { max_retries: 0, initial_backoff_seconds: 30, max_backoff_seconds: 1 };
    assert!(no_retry.can_plan(0) && no_retry.can_plan(1));
    let unbounded = RetryPolicy { max_retries: u32::MAX, initial_backoff_seconds: 1, max_backoff_seconds: 1 };
    assert!(unbounded.can_plan(0));
    assert!(!unbounded.can_plan(65));
    let many = RetryPolicy { max_retries: 100, initial_backoff_seconds: 0, max_backoff_seconds: 1 };
    assert!(many.can_plan(64));
    assert!(!many.can_plan(65));
    assert!(many.can_plan(100));
    assert!(many.can_plan(101));
    let big = RetryPolicy { max_retries: 65, initial_backoff_seconds: 2, max_backoff_seconds: 1 };
    assert!(big.can_plan(63));
    assert!(!big.can_plan(64));
    assert_eq!(big.plan_attempt(63), AttemptPlan::Send { wait_seconds: Some(1) });
    let top = RetryPolicy { max_retries: 65, initial_backoff_seconds: 1, max_backoff_seconds: u64::MAX };
    assert!(top.can_plan(64));
    assert_eq!(top.plan_attempt(64), AttemptPlan::Send { wait_seconds: Some(1u64 << 63) });
    assert_eq!(top.plan_attempt(65), AttemptPlan::GiveUp);
}

#[test]
fn item_transitions() {
    let p = policy(10);
    let it = item("e", 1, QueueItemStatus::Pending, 0);
    let it = begin_attempt(it);
    assert_eq!(it.status, QueueItemStatus::Sending);
    assert_eq!(it.attempts, 1);
    let it = record_failure(it, "timeout".to_string());
    assert_eq!(it.status, QueueItemStatus::Pending);
    assert_eq!(it.last_error.as_deref(), Some("timeout"));
    let now = UtcTimestamp { secs: 99, nanos: 1 };
    let sent = record_sent(begin_attempt(it), now);
    assert_eq!(sent.status, QueueItemStatus::Sent);
    assert_eq!(sent.sent_at, Some(now));
    assert_eq!(sent.attempts, 2);
    let failed = p.give_up(item("f", 1, QueueItemStatus::Pending, 11));
    assert_eq!(failed.status, QueueItemStatus::Failed);
    assert_eq!(failed.last_error.as_deref(), Some("Máximo de tentativas (10) atingido"));
}

#[test]
fn given_up_item_is_never_pending_again() {
    let p = policy(2);
    let failed = p.give_up(item("f", 1, QueueItemStatus::Sending, 3));
    let q = LocalQueue::new(PathBuf::from("queue"));
    assert!(q.select_pending(vec![entry("json", Some(failed))]).is_empty());
}

fn ack(success: bool, id: Option<&str>, verified: Option<bool>) -> UploadAck {
    UploadAck {
        success,
        status_text: "500 Internal Server Error".to_string(),
        body_text: "{\"status\":\"rejected\"}".to_string(),
        upload_id: id.map(|s| s.to_string()),
        hash_verified: verified,
    }
}

#[test]
fn upload_acknowledgements() {
    assert_eq!(interpret_ack(ack(true, Some("U1"), Some(true))), Ok("U1".to_string()));
    assert_eq!(interpret_ack(ack(true, None, Some(true))), Ok("unknown".to_string()));
    assert_eq!(
        interpret_ack(ack(true, Some("U1"), Some(false))),
        Err("Servidor não confirmou integridade do hash".to_string())
    );
    assert_eq!(
        interpret_ack(ack(true, Some("U1"), None)),
        Err("Servidor não confirmou integridade do hash".to_string())
    );
    assert_eq!(
        interpret_ack(ack(false, Some("U1"), Some(true))),
        Err("Servidor retornou 500 Internal Server Error: {\"status\":\"rejected\"}".to_string())
    );
}

#[test]
fn manifest_build_and_sizes() {
    let files = vec![
        FileData { name: Some("a.cfg".to_string()), data: b"abc".to_vec() },
        FileData { name: None, data: vec![1, 2, 3, 4] },
    ];
    let m = EventManifest::build_at(
        "SE_X",
        "F60",
        &files,
        "D:/inbox",
        UtcTimestamp { secs: 7, nanos: 0 },
        "2024-01-01T00-00-07Z",
        "0123456789abcdef",
    );
    assert_eq!(m.event_id, "SE_X_F60_2024-01-01T00-00-07Z_01234567");
    assert_eq!(m.files[0].name, "a.cfg");
    assert_eq!(m.files[0].sha256, "ba7816bf8f01cfea414140de5dae2223b00361a396177a9cb410ff61f20015ad");
    assert_eq!(m.files[1].name, "unknown");
    assert_eq!(m.files[1].size_bytes, 4);
    assert_eq!(m.total_size_bytes(), 7);
    assert_eq!(m.schema_version, 1);
    assert_eq!(m.source_path, "D:/inbox");
}

#[test]
fn manifest_build_now() {
    let m = EventManifest::build("SE_X", "F60", &Vec::new(), "in");
    assert!(m.event_id.starts_with("SE_X_F60_"));
    assert!(m.event_id.ends_with(&m.event_id[m.event_id.len() - 8..]));
    assert_eq!(m.event_id.len(), "SE_X_F60_".len() + "2024-01-01T00-00-07Z".len() + 1 + 8);
    let created = chrono::DateTime::from_timestamp(m.created_at_utc.secs, m.created_at_utc.nanos).unwrap();
    let stamp = created.format("%Y-%m-%dT%H-%M-%SZ").to_string();
    assert_eq!(&m.event_id["SE_X_F60_".len().."SE_X_F60_".len() + stamp.len()], stamp);
    assert!((m.created_at_utc.secs - chrono::Utc::now().timestamp()).abs() < 60);
    let random = &m.event_id[m.event_id.len() - 8..];
    assert!(random.chars().all(|c| c.is_ascii_digit() || ('a'..='f').contains(&c)));
    let other = EventManifest::build("SE_X", "F60", &Vec::new(), "in");
    assert_ne!(&other.event_id[other.event_id.len() - 8..], random);
}

#[test]
fn interrupted_and_failed_attempts_stay_due() {
    let q = LocalQueue::new(PathBuf::from("queue"));
    let interrupted = begin_attempt(item("cut", 10, QueueItemStatus::Pending, 0));
    assert_eq!(interrupted.status, QueueItemStatus::Sending);
    let failed_once = record_failure(begin_attempt(item("retry", 20, QueueItemStatus::Pending, 0)), "timeout".to_string());
    assert_eq!(failed_once.status, QueueItemStatus::Pending);
    let pending = q.select_pending(vec![entry("json", Some(failed_once)), entry("json", Some(interrupted))]);
    let ids: Vec<&str> = pending.iter().map(|i| i.event_id.as_str()).collect();
    assert_eq!(ids, vec!["cut", "retry"]);
}

#[test]
fn queue_files_are_named_after_events() {
    let q = LocalQueue::new(PathBuf::from("queue"));
    assert_eq!(LocalQueue::item_file_name("SE1_DEV_T_abc"), "SE1_DEV_T_abc.json");
    assert_eq!(q.item_path("SE1_DEV_T_abc"), PathBuf::from("queue").join("SE1_DEV_T_abc.json"));
}
