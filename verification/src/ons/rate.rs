//! The per-station upload rate limit: a token bucket for each station that
//! holds at most `burst_size` uploads and refills at
//! `max_uploads_per_minute` uploads per minute.
use crate::ons::config::RateLimitConfig;
use crate::text::{str_eq, to_owned_string};
use vstd::prelude::*;

verus! {

/// What one upload costs, in the bucket's units: a minute in milliseconds,
/// so that a rate of `n` uploads per minute refills `n` units per
/// millisecond.
pub const UPLOAD_COST: u64 = 60_000;

/// One station's bucket: its tokens in units of `UPLOAD_COST` per upload,
/// and the time, in milliseconds, at which they were last counted.
pub struct StationBucket {
    pub station_id: String,
    pub tokens: u64,
    pub last_ms: u64,
}

/// The buckets of the stations that have uploaded.
pub struct RateLimiter {
    pub buckets: Vec<StationBucket>,
}

/// The bucket at `i` is the first of the station's.
pub open spec fn first_at(b: Seq<StationBucket>, station: Seq<char>, i: int) -> bool {
    &&& 0 <= i < b.len()
    &&& b[i].station_id@ == station
    &&& forall|j: int| 0 <= j < i ==> #[trigger] b[j].station_id@ != station
}

/// A station's tokens and the time they were counted, where it has a bucket.
pub open spec fn bucket_of(b: Seq<StationBucket>, station: Seq<char>) -> Option<(nat, nat)> {
    if exists|i: int| first_at(b, station, i) {
        let i = choose|i: int| first_at(b, station, i);
        Some((b[i].tokens as nat, b[i].last_ms as nat))
    } else {
        None
    }
}

/// A full bucket: `burst_size` uploads.
pub open spec fn capacity(cfg: RateLimitConfig) -> nat {
    cfg.burst_size as nat * UPLOAD_COST as nat
}

/// The tokens counted at `last` and refilled until `now`, up to the capacity.
pub open spec fn refill(tokens: nat, last: nat, now: nat, cfg: RateLimitConfig) -> nat {
    let elapsed: nat = if now >= last { (now - last) as nat } else { 0 };
    let t = tokens + elapsed * cfg.max_uploads_per_minute as nat;
    if t <= capacity(cfg) { t } else { capacity(cfg) }
}

/// The tokens that a station has at `now`: a station without a bucket has
/// a full one.
pub open spec fn available(b: Seq<StationBucket>, station: Seq<char>, now: nat, cfg: RateLimitConfig) -> nat {
    match bucket_of(b, station) {
        Some(p) => refill(p.0, p.1, now, cfg),
        None => capacity(cfg),
    }
}

/// The station may upload at `now`: its bucket holds an upload's worth.
pub open spec fn spec_admits(b: Seq<StationBucket>, station: Seq<char>, now: nat, cfg: RateLimitConfig) -> bool {
    available(b, station, now, cfg) >= UPLOAD_COST
}

/// The buckets after the station asks to upload at `now`: its tokens are
/// counted at `now`, less an upload where it is admitted; every other
/// station's bucket is unchanged.
pub open spec fn after_request(old: Seq<StationBucket>, new: Seq<StationBucket>, station: Seq<char>, now: nat, cfg: RateLimitConfig) -> bool {
    let a = available(old, station, now, cfg);
    &&& bucket_of(new, station) == Some((if a >= UPLOAD_COST { (a - UPLOAD_COST) as nat } else { a }, now))
    &&& forall|s: Seq<char>| s != station ==> #[trigger] bucket_of(new, s) == bucket_of(old, s)
}

/// Where the bucket at `i` is the station's first, it is what `bucket_of` gives.
proof fn lemma_bucket_at(b: Seq<StationBucket>, station: Seq<char>, i: int)
    requires
        first_at(b, station, i),
    ensures
        bucket_of(b, station) == Some((b[i].tokens as nat, b[i].last_ms as nat)),
{
    let k = choose|k: int| first_at(b, station, k);
    assert(first_at(b, station, k));
    if k < i {
        assert(b[k].station_id@ != station);
    } else if i < k {
        assert(b[i].station_id@ != station);
    }
}

/// Where no bucket is the station's, `bucket_of` gives none.
proof fn lemma_no_bucket(b: Seq<StationBucket>, station: Seq<char>)
    requires
        forall|j: int| 0 <= j < b.len() ==> #[trigger] b[j].station_id@ != station,
    ensures
        bucket_of(b, station) is None,
{
}

/// Two bucket lists that agree on every station's entries where it is not
/// `station` give other stations the same buckets.
proof fn lemma_frame(old: Seq<StationBucket>, new: Seq<StationBucket>, station: Seq<char>, s: Seq<char>)
    requires
        s != station,
        old.len() <= new.len(),
        forall|j: int| 0 <= j < old.len() && old[j].station_id@ != station ==> #[trigger] new[j] == old[j],
        forall|j: int| 0 <= j < old.len() && old[j].station_id@ == station ==> #[trigger] new[j].station_id@ == station,
        forall|j: int| old.len() <= j < new.len() ==> #[trigger] new[j].station_id@ == station,
    ensures
        bucket_of(new, s) == bucket_of(old, s),
{
    if exists|i: int| first_at(old, s, i) {
        let i = choose|i: int| first_at(old, s, i);
        assert(new[i] == old[i]);
        assert forall|j: int| 0 <= j < i implies #[trigger] new[j].station_id@ != s by {
            if old[j].station_id@ != station {
                assert(new[j] == old[j]);
            }
        }
        assert(first_at(new, s, i));
        lemma_bucket_at(old, s, i);
        lemma_bucket_at(new, s, i);
    } else {
        assert forall|j: int| 0 <= j < old.len() implies #[trigger] old[j].station_id@ != s by {
            if old[j].station_id@ == s {
                lemma_first_exists(old, s, j);
            }
        }
        assert forall|j: int| 0 <= j < new.len() implies #[trigger] new[j].station_id@ != s by {
            if j < old.len() && old[j].station_id@ != station {
                assert(new[j] == old[j]);
                assert(old[j].station_id@ != s);
            }
        }
        lemma_no_bucket(old, s);
        lemma_no_bucket(new, s);
    }
}

/// Where some bucket is the station's, a first one is.
proof fn lemma_first_exists(b: Seq<StationBucket>, station: Seq<char>, j: int)
    requires
        0 <= j < b.len(),
        b[j].station_id@ == station,
    ensures
        exists|i: int| first_at(b, station, i),
    decreases j,
{
    if exists|k: int| 0 <= k < j && #[trigger] b[k].station_id@ == station {
        let k = choose|k: int| 0 <= k < j && #[trigger] b[k].station_id@ == station;
        lemma_first_exists(b, station, k);
    } else {
        assert(first_at(b, station, j));
    }
}

/// The tokens counted at `last` and refilled until `now`.
fn refill_exec(tokens: u64, last: u64, now: u64, cfg: &RateLimitConfig) -> (r: u64)
    ensures
        r as nat == refill(tokens as nat, last as nat, now as nat, *cfg),
{
    let elapsed: u64 = if now >= last { now - last } else { 0 };
    let cap: u64 = cfg.burst_size as u64 * UPLOAD_COST;
    assert((elapsed as nat) * (cfg.max_uploads_per_minute as nat) <= (u64::MAX as nat) * (u32::MAX as nat)) by (nonlinear_arith)
        requires
            elapsed as nat <= u64::MAX,
            cfg.max_uploads_per_minute as nat <= u32::MAX,
    ;
    let t: u128 = tokens as u128 + elapsed as u128 * cfg.max_uploads_per_minute as u128;
    if t <= cap as u128 { t as u64 } else { cap }
}

impl RateLimiter {
    /// No station has uploaded.
    pub fn new() -> (r: Self)
        ensures
            forall|s: Seq<char>| #[trigger] bucket_of(r.buckets@, s) is None,
    {
        RateLimiter { buckets: Vec::new() }
    }

    /// A station asks to upload at `now_ms`: its bucket is refilled for the
    /// time since it was last counted, and the upload is admitted where the
    /// bucket holds an upload's worth, which it then pays.
    pub fn request_upload(&mut self, station_id: &str, now_ms: u64, cfg: &RateLimitConfig) -> (ok: bool)
        ensures
            ok == spec_admits(old(self).buckets@, station_id@, now_ms as nat, *cfg),
            after_request(old(self).buckets@, final(self).buckets@, station_id@, now_ms as nat, *cfg),
    {
        let ghost old_b = self.buckets@;
        let mut i: usize = 0;
        while i < self.buckets.len()
            invariant
                self.buckets@ == old_b,
                i <= old_b.len(),
                forall|j: int| 0 <= j < i ==> #[trigger] old_b[j].station_id@ != station_id@,
            ensures
                self.buckets@ == old_b,
                i <= old_b.len(),
                forall|j: int| 0 <= j < i ==> #[trigger] old_b[j].station_id@ != station_id@,
                i < old_b.len() ==> old_b[i as int].station_id@ == station_id@,
            decreases old_b.len() - i,
        {
            if str_eq(self.buckets[i].station_id.as_str(), station_id) {
                break;
            }
            i = i + 1;
        }
        let cap: u64 = cfg.burst_size as u64 * UPLOAD_COST;
        if i < self.buckets.len() {
            assert(first_at(old_b, station_id@, i as int));
            proof { lemma_bucket_at(old_b, station_id@, i as int); }
            let t = refill_exec(self.buckets[i].tokens, self.buckets[i].last_ms, now_ms, cfg);
            let ok = t >= UPLOAD_COST;
            let left = if ok { t - UPLOAD_COST } else { t };
            let b = StationBucket { station_id: to_owned_string(station_id), tokens: left, last_ms: now_ms };
            self.buckets.set(i, b);
            proof {
                let nb = self.buckets@;
                assert(first_at(nb, station_id@, i as int));
                lemma_bucket_at(nb, station_id@, i as int);
                assert forall|s: Seq<char>| s != station_id@ implies #[trigger] bucket_of(nb, s) == bucket_of(old_b, s) by {
                    lemma_frame(old_b, nb, station_id@, s);
                }
            }
            ok
        } else {
            proof { lemma_no_bucket(old_b, station_id@); }
            let ok = cap >= UPLOAD_COST;
            let left = if ok { cap - UPLOAD_COST } else { cap };
            let b = StationBucket { station_id: to_owned_string(station_id), tokens: left, last_ms: now_ms };
            self.buckets.push(b);
            proof {
                let nb = self.buckets@;
                assert(first_at(nb, station_id@, old_b.len() as int));
                lemma_bucket_at(nb, station_id@, old_b.len() as int);
                assert forall|s: Seq<char>| s != station_id@ implies #[trigger] bucket_of(nb, s) == bucket_of(old_b, s) by {
                    lemma_frame(old_b, nb, station_id@, s);
                }
            }
            ok
        }
    }
}

/// A station never holds more than a full bucket: `burst_size` uploads.
pub proof fn law_available_within_burst(b: Seq<StationBucket>, station: Seq<char>, now: nat, cfg: RateLimitConfig)
    ensures
        available(b, station, now, cfg) <= capacity(cfg),
{
}

/// An admitted upload spends exactly one upload's worth of the station's
/// bucket: asked again at the same instant, the station has that much less.
/// So at one instant a station is admitted at most `burst_size` times.
pub proof fn law_admission_spends_one_upload(old: Seq<StationBucket>, new: Seq<StationBucket>, station: Seq<char>, now: nat, cfg: RateLimitConfig)
    requires
        after_request(old, new, station, now, cfg),
        spec_admits(old, station, now, cfg),
    ensures
        available(new, station, now, cfg) == available(old, station, now, cfg) - UPLOAD_COST,
{
    law_available_within_burst(old, station, now, cfg);
    let a = available(old, station, now, cfg);
    lemma_refill_same_instant((a - UPLOAD_COST) as nat, now, cfg);
}

/// Counted again at the instant they were counted, tokens within a full
/// bucket stay as they are.
proof fn lemma_refill_same_instant(tokens: nat, now: nat, cfg: RateLimitConfig)
    requires
        tokens <= capacity(cfg),
    ensures
        refill(tokens, now, now, cfg) == tokens,
{
    let elapsed: nat = 0;
    assert(elapsed * cfg.max_uploads_per_minute as nat == 0);
}

/// A refused request spends nothing: asked again at the same instant, the
/// station is refused again.
pub proof fn law_refusal_spends_nothing(old: Seq<StationBucket>, new: Seq<StationBucket>, station: Seq<char>, now: nat, cfg: RateLimitConfig)
    requires
        after_request(old, new, station, now, cfg),
        !spec_admits(old, station, now, cfg),
    ensures
        available(new, station, now, cfg) == available(old, station, now, cfg),
        !spec_admits(new, station, now, cfg),
{
    law_available_within_burst(old, station, now, cfg);
    lemma_refill_same_instant(available(old, station, now, cfg), now, cfg);
}

/// A minute later, a station has regained `max_uploads_per_minute` uploads,
/// up to a full bucket.
pub proof fn law_minute_refills_rate(b: Seq<StationBucket>, new: Seq<StationBucket>, station: Seq<char>, now: nat, cfg: RateLimitConfig)
    requires
        after_request(b, new, station, now, cfg),
    ensures
        available(new, station, (now + UPLOAD_COST) as nat, cfg) >= ({
            let left = bucket_of(new, station)->Some_0.0;
            let full = left + cfg.max_uploads_per_minute as nat * UPLOAD_COST as nat;
            if full <= capacity(cfg) { full } else { capacity(cfg) }
        }),
{
    let left = bucket_of(new, station)->Some_0.0;
    assert(UPLOAD_COST as nat * (cfg.max_uploads_per_minute as nat) == (cfg.max_uploads_per_minute as nat) * (UPLOAD_COST as nat)) by (nonlinear_arith);
}

/// Requests of one station never change another station's bucket.
pub proof fn law_stations_are_independent(old: Seq<StationBucket>, new: Seq<StationBucket>, station: Seq<char>, other: Seq<char>, now: nat, cfg: RateLimitConfig)
    requires
        after_request(old, new, station, now, cfg),
        other != station,
    ensures
        forall|t: nat| available(new, other, t, cfg) == available(old, other, t, cfg),
{
    assert(bucket_of(new, other) == bucket_of(old, other));
}

} // verus!
