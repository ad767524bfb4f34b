//! The agent's upload retry policy: when a queued event is tried again, how
//! long to wait first, and when it is given up.
use crate::clock::UtcTimestamp;
use crate::substation::config::AgentConfig;
use crate::substation::queue::{QueueItem, QueueItemStatus, QueueEntry, is_due, is_pending_entry, json_ext};
use crate::text::{push_str, push_decimal, decimal};
use vstd::prelude::*;

verus! {

/// Two to the power `k`.
pub open spec fn two_pow(k: nat) -> nat
    decreases k,
{
    if k == 0 {
        1
    } else {
        2 * two_pow((k - 1) as nat)
    }
}

/// The retry settings of the sender.
#[derive(Clone, Copy, Debug)]
pub struct RetryPolicy {
    pub max_retries: u32,
    pub initial_backoff_seconds: u64,
    pub max_backoff_seconds: u64,
}

/// What the sender does next with a queued event.
#[derive(Clone, Copy, Debug, PartialEq, Eq, Structural)]
pub enum AttemptPlan {
    /// The event has used up its attempts: mark it failed.
    GiveUp,
    /// Try to send the event, first waiting the given number of seconds
    /// where a wait is due.
    Send { wait_seconds: Option<u64> },
}

/// The uncapped wait before attempt number `attempts + 1`: the initial
/// backoff, doubled for each earlier retry.
pub open spec fn raw_backoff(initial: nat, attempts: nat) -> nat
    recommends
        attempts >= 1,
{
    initial * two_pow((attempts - 1) as nat)
}

impl RetryPolicy {
    /// The retry settings of an agent configuration.
    pub fn from_config(cfg: &AgentConfig) -> (p: RetryPolicy)
        ensures
            p.max_retries == cfg.max_retries,
            p.initial_backoff_seconds == cfg.retry_initial_backoff_seconds,
            p.max_backoff_seconds == cfg.retry_max_backoff_seconds,
    {
        RetryPolicy {
            max_retries: cfg.max_retries,
            initial_backoff_seconds: cfg.retry_initial_backoff_seconds,
            max_backoff_seconds: cfg.retry_max_backoff_seconds,
        }
    }

    /// The wait, in seconds, before the attempt that follows `attempts`
    /// earlier ones: the raw backoff, capped at the maximum.
    pub open spec fn spec_backoff(self, attempts: nat) -> nat {
        let raw = raw_backoff(self.initial_backoff_seconds as nat, attempts);
        if raw < self.max_backoff_seconds {
            raw
        } else {
            self.max_backoff_seconds as nat
        }
    }

    /// What to do with an event that has been tried `attempts` times.
    pub open spec fn spec_plan(self, attempts: nat) -> AttemptPlan {
        if attempts >= self.max_retries {
            AttemptPlan::GiveUp
        } else if attempts > 0 {
            AttemptPlan::Send { wait_seconds: Some(self.spec_backoff(attempts) as u64) }
        } else {
            AttemptPlan::Send { wait_seconds: None }
        }
    }

    /// The wait before the attempt that follows `attempts` earlier ones.
    pub fn backoff_seconds(&self, attempts: u32) -> (r: u64)
        requires
            1 <= attempts <= 64,
            raw_backoff(self.initial_backoff_seconds as nat, attempts as nat) <= u64::MAX,
        ensures
            r as nat == self.spec_backoff(attempts as nat),
    {
        let mut p: u64 = 1;
        let mut k: u32 = 0;
        proof {
            lemma_two_pow_monotone(0, (attempts - 1) as nat);
        }
        while k + 1 < attempts
            invariant
                1 <= attempts <= 64,
                k + 1 <= attempts,
                p as nat == two_pow(k as nat),
                p as nat <= two_pow((attempts - 1) as nat),
            decreases attempts - k,
        {
            proof {
                lemma_two_pow_bounds((k + 1) as nat);
                lemma_two_pow_monotone((k + 1) as nat, (attempts - 1) as nat);
            }
            p = p * 2;
            k = k + 1;
        }
        proof {
            lemma_two_pow_bounds(k as nat);
        }
        let raw = self.initial_backoff_seconds * p;
        if raw < self.max_backoff_seconds {
            raw
        } else {
            self.max_backoff_seconds
        }
    }

    /// What to do with a queued event that has been tried `attempts` times:
    /// give it up once it has had `max_retries` attempts; else send it,
    /// after the backoff wait where it has been tried before.
    pub fn plan_attempt(&self, attempts: u32) -> (r: AttemptPlan)
        requires
            self.plan_computable(attempts as nat),
        ensures
            r == self.spec_plan(attempts as nat),
    {
        if attempts >= self.max_retries {
            AttemptPlan::GiveUp
        } else if attempts > 0 {
            AttemptPlan::Send { wait_seconds: Some(self.backoff_seconds(attempts)) }
        } else {
            AttemptPlan::Send { wait_seconds: None }
        }
    }

    /// The plan for an event tried `attempts` times is computable in fixed
    /// width: a wait that is due is `initial * 2u64.pow(attempts - 1)` in 64
    /// bits.
    pub open spec fn plan_computable(self, attempts: nat) -> bool {
        1 <= attempts < self.max_retries ==> attempts <= 64
            && raw_backoff(self.initial_backoff_seconds as nat, attempts) <= u64::MAX
    }

    /// Whether the plan for an event tried `attempts` times is computable.
    pub fn can_plan(&self, attempts: u32) -> (r: bool)
        ensures
            r == self.plan_computable(attempts as nat),
    {
        if attempts == 0 || attempts >= self.max_retries {
            return true;
        }
        if attempts > 64 {
            return false;
        }
        let mut p: u64 = 1;
        let mut k: u32 = 0;
        while k + 1 < attempts
            invariant
                1 <= attempts <= 64,
                k + 1 <= attempts,
                p as nat == two_pow(k as nat),
            decreases attempts - k,
        {
            proof {
                lemma_two_pow_bounds((k + 1) as nat);
            }
            assert(two_pow((k + 1) as nat) == 2 * two_pow(k as nat));
            p = p * 2;
            k = k + 1;
        }
        assert(raw_backoff(self.initial_backoff_seconds as nat, attempts as nat) == self.initial_backoff_seconds as nat * p as nat);
        self.initial_backoff_seconds.checked_mul(p).is_some()
    }

    /// The error recorded on an event that is given up.
    pub open spec fn give_up_message(self) -> Seq<char> {
        "Máximo de tentativas ("@ + decimal(self.max_retries as nat) + ") atingido"@
    }

    /// Marks an event as failed for good, recording why.
    pub fn give_up(&self, item: QueueItem) -> (r: QueueItem)
        ensures
            r.status == QueueItemStatus::Failed,
            r.last_error matches Some(e) && e@ == self.give_up_message(),
            r.attempts == item.attempts,
            r.event_id == item.event_id,
            r.manifest == item.manifest,
            r.files == item.files,
            r.queued_at == item.queued_at,
            r.sent_at == item.sent_at,
    {
        let mut msg = String::new();
        push_str(&mut msg, "Máximo de tentativas (");
        push_decimal(&mut msg, self.max_retries as u64);
        push_str(&mut msg, ") atingido");
        QueueItem { status: QueueItemStatus::Failed, last_error: Some(msg), ..item }
    }
}

/// Starts an attempt: the event is being sent and has one more attempt.
pub fn begin_attempt(item: QueueItem) -> (r: QueueItem)
    requires
        item.attempts < u32::MAX,
    ensures
        r.status == QueueItemStatus::Sending,
        r.attempts == item.attempts + 1,
        r.last_error == item.last_error,
        r.event_id == item.event_id,
        r.manifest == item.manifest,
        r.files == item.files,
        r.queued_at == item.queued_at,
        r.sent_at == item.sent_at,
{
    let attempts = item.attempts + 1;
    QueueItem { status: QueueItemStatus::Sending, attempts, ..item }
}

/// Records a confirmed upload at `now`.
pub fn record_sent(item: QueueItem, now: UtcTimestamp) -> (r: QueueItem)
    ensures
        r.status == QueueItemStatus::Sent,
        r.sent_at == Some(now),
        r.attempts == item.attempts,
        r.last_error == item.last_error,
        r.event_id == item.event_id,
        r.manifest == item.manifest,
        r.files == item.files,
        r.queued_at == item.queued_at,
{
    QueueItem { status: QueueItemStatus::Sent, sent_at: Some(now), ..item }
}

/// Records a failed attempt: the event waits for its next attempt.
pub fn record_failure(item: QueueItem, error: String) -> (r: QueueItem)
    ensures
        r.status == QueueItemStatus::Pending,
        r.last_error == Some(error),
        r.attempts == item.attempts,
        r.event_id == item.event_id,
        r.manifest == item.manifest,
        r.files == item.files,
        r.queued_at == item.queued_at,
        r.sent_at == item.sent_at,
{
    QueueItem { status: QueueItemStatus::Pending, last_error: Some(error), ..item }
}

/// Powers of two are positive.
pub proof fn lemma_two_pow_pos(k: nat)
    ensures
        two_pow(k) >= 1,
    decreases k,
{
    if k > 0 {
        lemma_two_pow_pos((k - 1) as nat);
    }
}

/// Powers of two are positive and at most 2^63 below 64.
pub proof fn lemma_two_pow_bounds(k: nat)
    ensures
        two_pow(k) >= 1,
        k <= 63 ==> two_pow(k) <= 0x8000_0000_0000_0000,
{
    lemma_two_pow_pos(k);
    if k <= 63 {
        lemma_two_pow_monotone(k, 63);
        lemma_two_pow_is_pow2(63);
        vstd::arithmetic::power2::lemma2_to64_rest();
    }
}

/// `two_pow` agrees with vstd's `pow2`.
pub proof fn lemma_two_pow_is_pow2(k: nat)
    ensures
        two_pow(k) == vstd::arithmetic::power2::pow2(k),
    decreases k,
{
    if k == 0 {
        vstd::arithmetic::power2::lemma2_to64();
    } else {
        lemma_two_pow_is_pow2((k - 1) as nat);
        vstd::arithmetic::power2::lemma_pow2_unfold(k);
    }
}

/// Powers of two grow with the exponent.
pub proof fn lemma_two_pow_monotone(a: nat, b: nat)
    requires
        a <= b,
    ensures
        two_pow(a) <= two_pow(b),
    decreases b,
{
    if a < b {
        lemma_two_pow_monotone(a, (b - 1) as nat);
        lemma_two_pow_pos((b - 1) as nat);
    }
}

/// The raw backoff grows with the number of attempts.
pub proof fn lemma_raw_backoff_grows(initial: nat, a: nat, b: nat)
    requires
        1 <= a <= b,
    ensures
        raw_backoff(initial, a) <= raw_backoff(initial, b),
{
    lemma_two_pow_monotone((a - 1) as nat, (b - 1) as nat);
    let pa = two_pow((a - 1) as nat);
    let pb = two_pow((b - 1) as nat);
    assert(initial * pa <= initial * pb) by (nonlinear_arith)
        requires
            pa <= pb,
    ;
}

/// The wait before a retry never exceeds the configured maximum backoff.
pub proof fn law_backoff_capped(p: RetryPolicy, attempts: nat)
    requires
        attempts >= 1,
    ensures
        p.spec_backoff(attempts) <= p.max_backoff_seconds,
{
}

/// The wait before a retry never shrinks from one attempt to the next.
pub proof fn law_backoff_nondecreasing(p: RetryPolicy, attempts: nat)
    requires
        attempts >= 1,
    ensures
        p.spec_backoff(attempts) <= p.spec_backoff(attempts + 1),
{
    lemma_raw_backoff_grows(p.initial_backoff_seconds as nat, attempts, attempts + 1);
}

/// Below the cap, each retry waits twice as long as the one before.
pub proof fn law_backoff_doubles(p: RetryPolicy, attempts: nat)
    requires
        attempts >= 1,
        raw_backoff(p.initial_backoff_seconds as nat, attempts + 1) < p.max_backoff_seconds,
    ensures
        p.spec_backoff(attempts + 1) == 2 * p.spec_backoff(attempts),
{
    lemma_raw_backoff_grows(p.initial_backoff_seconds as nat, attempts, attempts + 1);
    let i = p.initial_backoff_seconds as nat;
    let q = two_pow((attempts - 1) as nat);
    assert(two_pow(attempts) == 2 * q);
    assert(i * (2 * q) == 2 * (i * q)) by (nonlinear_arith);
}

/// An event is sent at most `max_retries` times: the policy only plans a
/// send for an event with fewer attempts, so after the attempt that it
/// starts the count is at most `max_retries`.
pub proof fn law_attempts_bounded(p: RetryPolicy, attempts: nat)
    requires
        p.spec_plan(attempts) is Send,
    ensures
        attempts + 1 <= p.max_retries,
{
}

/// An event that has been given up is never picked for sending again,
/// whatever else the queue holds.
pub proof fn law_given_up_not_pending(failed: QueueItem, ext: Option<String>)
    requires
        failed.status == QueueItemStatus::Failed,
    ensures
        !is_pending_entry(QueueEntry { extension: ext, item: Some(failed) }),
{
}

/// What the sender reads of the server's answer to an upload: whether the
/// status is a success, the status and body as text, and the body's
/// `upload_id` (where it is a string) and `hash_verified` (where it is a
/// boolean) members.
pub struct UploadAck {
    pub success: bool,
    pub status_text: String,
    pub body_text: String,
    pub upload_id: Option<String>,
    pub hash_verified: Option<bool>,
}

/// The outcome of an upload from the server's answer: a failure status is
/// an error with the status and body; a success is confirmed only where the
/// server states that the hashes were verified, and gives the upload id
/// ("unknown" where the answer has none).
pub open spec fn spec_ack(ack: UploadAck) -> Result<Seq<char>, Seq<char>> {
    if !ack.success {
        Err("Servidor retornou "@ + ack.status_text@ + ": "@ + ack.body_text@)
    } else if ack.hash_verified != Some(true) {
        Err("Servidor não confirmou integridade do hash"@)
    } else {
        match ack.upload_id {
            Some(id) => Ok(id@),
            None => Ok("unknown"@),
        }
    }
}

/// A text result by its views.
pub open spec fn text_result(r: Result<String, String>) -> Result<Seq<char>, Seq<char>> {
    match r {
        Ok(s) => Ok(s@),
        Err(e) => Err(e@),
    }
}

/// Interprets the server's answer to an upload.
pub fn interpret_ack(ack: UploadAck) -> (r: Result<String, String>)
    ensures
        text_result(r) == spec_ack(ack),
{
    let ghost a = ack;
    let UploadAck { success, status_text, body_text, upload_id, hash_verified } = ack;
    if !success {
        let mut e = String::new();
        push_str(&mut e, "Servidor retornou ");
        push_str(&mut e, status_text.as_str());
        push_str(&mut e, ": ");
        push_str(&mut e, body_text.as_str());
        return Err(e);
    }
    let confirmed = match hash_verified {
        Some(b) => b,
        None => false,
    };
    if !confirmed {
        let mut e = String::new();
        push_str(&mut e, "Servidor não confirmou integridade do hash");
        return Err(e);
    }
    match upload_id {
        Some(id) => Ok(id),
        None => {
            let mut s = String::new();
            push_str(&mut s, "unknown");
            Ok(s)
        },
    }
}

/// An event whose attempt failed, or was cut off while it was being sent,
/// is still due: after a restart the queue picks it again.
pub proof fn law_unsent_event_stays_due(item: QueueItem, ext: String)
    requires
        ext@ == json_ext(),
        item.status == QueueItemStatus::Pending || item.status == QueueItemStatus::Sending,
    ensures
        is_pending_entry(QueueEntry { extension: Some(ext), item: Some(item) }),
{
}

/// An upload counts as sent only where the server confirmed the hashes.
pub proof fn law_sent_only_when_hash_confirmed(ack: UploadAck)
    ensures
        spec_ack(ack) is Ok ==> ack.success && ack.hash_verified == Some(true),
{
}

} // verus!
