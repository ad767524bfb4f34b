//! Instants in UTC as plain values, and the whole-unit differences that the
//! rest of the library measures with.
use vstd::prelude::*;

verus! {

/// Seconds in a day.
pub const SECS_PER_DAY: i64 = 86400;

/// Seconds in an hour.
pub const SECS_PER_HOUR: i64 = 3600;

/// Nanoseconds in a second.
pub const NANOS_PER_SEC: u32 = 1_000_000_000;

/// An instant in UTC: whole seconds since the Unix epoch and the nanoseconds
/// past that second. The order of instants is the order of the pair.
#[derive(Clone, Copy, Debug, PartialEq, Eq, Structural)]
pub struct UtcTimestamp {
    pub secs: i64,
    pub nanos: u32,
}

impl UtcTimestamp {
    /// `self` comes strictly before `other`.
    pub open spec fn spec_before(self, other: UtcTimestamp) -> bool {
        self.secs < other.secs || (self.secs == other.secs && self.nanos < other.nanos)
    }

    /// `self` comes strictly before `other`.
    pub fn is_before(&self, other: &UtcTimestamp) -> (r: bool)
        ensures
            r == self.spec_before(*other),
    {
        self.secs < other.secs || (self.secs == other.secs && self.nanos < other.nanos)
    }
}

/// Integer division that rounds toward zero, as Rust's `/` does on signed values.
pub open spec fn div_toward_zero(x: int, d: int) -> int
    recommends
        d > 0,
{
    if x >= 0 {
        x / d
    } else {
        -((-x) / d)
    }
}

/// The second of its day at which an instant falls.
pub open spec fn second_of_day(secs: int) -> int {
    secs % (SECS_PER_DAY as int)
}

/// The whole seconds from `b` to `a`, rounded toward zero, as chrono's
/// `(a - b).num_seconds()` gives them. A nanosecond count of a second or
/// more marks a leap second; chrono counts it only where the two instants
/// are on either side of it within their days.
pub open spec fn whole_secs_since(a: UtcTimestamp, b: UtcTimestamp) -> int {
    let adj: int = if second_of_day(a.secs as int) > second_of_day(b.secs as int)
        && b.nanos >= NANOS_PER_SEC {
        1
    } else if second_of_day(a.secs as int) < second_of_day(b.secs as int) && a.nanos
        >= NANOS_PER_SEC {
        -1
    } else {
        0
    };
    let frac: int = a.nanos - b.nanos;
    let secs: int = a.secs - b.secs + adj + frac / (NANOS_PER_SEC as int);
    let rest: int = frac % (NANOS_PER_SEC as int);
    if secs < 0 && rest > 0 {
        secs + 1
    } else {
        secs
    }
}

/// An instant that a chrono `DateTime<Utc>` holds: in its range, with at
/// most a leap second's worth of nanoseconds, and a leap second only in the
/// last second of a minute.
pub open spec fn chrono_instant(t: UtcTimestamp) -> bool {
    &&& MIN_UTC_SECS <= t.secs <= MAX_UTC_SECS
    &&& t.nanos < 2 * NANOS_PER_SEC
    &&& t.nanos >= NANOS_PER_SEC ==> t.secs % 60 == 59
}

/// The whole days from `b` to `a`, rounded toward zero.
///
/// Calls `chrono::DateTime::from_timestamp` on both instants, subtracts them
/// and takes `TimeDelta::num_days`: the whole seconds between them, as
/// `whole_secs_since` states chrono's subtraction, divided by a day's
/// seconds with Rust's truncating division.
#[verifier::external_body]
pub(crate) fn days_between(a: UtcTimestamp, b: UtcTimestamp) -> (r: i64)
    requires
        chrono_instant(a),
        chrono_instant(b),
    ensures
        r == whole_days(whole_secs_since(a, b)),
{
    let x = chrono::DateTime::from_timestamp(a.secs, a.nanos).unwrap_or_default();
    let y = chrono::DateTime::from_timestamp(b.secs, b.nanos).unwrap_or_default();
    (x - y).num_days()
}

/// The whole hours from `b` to `a`, rounded toward zero.
///
/// Calls `chrono::DateTime::from_timestamp` on both instants, subtracts them
/// and takes `TimeDelta::num_hours`: the whole seconds between them, as
/// `whole_secs_since` states chrono's subtraction, divided by an hour's
/// seconds with Rust's truncating division.
#[verifier::external_body]
pub(crate) fn hours_between(a: UtcTimestamp, b: UtcTimestamp) -> (r: i64)
    requires
        chrono_instant(a),
        chrono_instant(b),
    ensures
        r == whole_hours(whole_secs_since(a, b)),
{
    let x = chrono::DateTime::from_timestamp(a.secs, a.nanos).unwrap_or_default();
    let y = chrono::DateTime::from_timestamp(b.secs, b.nanos).unwrap_or_default();
    (x - y).num_hours()
}

/// Whole days in a number of whole seconds, as `TimeDelta::num_days` gives them.
pub open spec fn whole_days(secs: int) -> int {
    div_toward_zero(secs, SECS_PER_DAY as int)
}

/// Whole hours in a number of whole seconds, as `TimeDelta::num_hours` gives them.
pub open spec fn whole_hours(secs: int) -> int {
    div_toward_zero(secs, SECS_PER_HOUR as int)
}

} // verus!

verus! {

/// The earliest whole second that `chrono::DateTime<Utc>` represents.
pub const MIN_UTC_SECS: i64 = -8334601228800;

/// The latest whole second that `chrono::DateTime<Utc>` represents.
pub const MAX_UTC_SECS: i64 = 8210266876799;

/// `t` is an instant that the system clock can give: in chrono's range,
/// outside a leap second, and not before the Unix epoch.
pub open spec fn clock_reading(t: UtcTimestamp) -> bool {
    representable(t) && 0 <= t.secs
}

/// `t` is an instant that `chrono::DateTime<Utc>` can hold, outside a leap second.
pub open spec fn representable(t: UtcTimestamp) -> bool {
    MIN_UTC_SECS <= t.secs <= MAX_UTC_SECS && t.nanos < NANOS_PER_SEC
}

/// The current time.
///
/// Calls `chrono::Utc::now`, which reads the system clock; of its result only
/// what holds of every reading is stated: it lies in chrono's range, with
/// fewer than a second's worth of nanoseconds, and not before the Unix
/// epoch (`Utc::now` takes `SystemTime::now().duration_since(UNIX_EPOCH)`
/// and panics on a clock set before it, so no earlier reading returns).
#[verifier::external_body]
pub(crate) fn utc_now() -> (t: UtcTimestamp)
    ensures
        representable(t),
        clock_reading(t),
{
    let now = chrono::Utc::now();
    UtcTimestamp { secs: now.timestamp(), nanos: now.timestamp_subsec_nanos() }
}

/// The text that `format("%Y-%m-%dT%H-%M-%SZ")` gives of an instant.
pub uninterp spec fn spec_event_time_text(secs: i64, nanos: u32) -> Seq<char>;

/// Formats an instant as `%Y-%m-%dT%H-%M-%SZ` (the agent's event-id stamp).
///
/// Calls `chrono::DateTime::from_timestamp` and `format`; the calendar text is
/// named, not stated.
#[verifier::external_body]
pub(crate) fn format_event_time(t: UtcTimestamp) -> (r: String)
    requires
        representable(t),
    ensures
        r@ == spec_event_time_text(t.secs, t.nanos),
{
    chrono::DateTime::from_timestamp(t.secs, t.nanos)
        .map(|d| d.format("%Y-%m-%dT%H-%M-%SZ").to_string())
        .unwrap_or_default()
}

/// The RFC 3339 text that `DateTime::<Utc>::to_rfc3339` gives of an instant.
pub uninterp spec fn spec_rfc3339(secs: i64, nanos: u32) -> Seq<char>;

/// Formats an instant as RFC 3339.
///
/// Calls `chrono::DateTime::<Utc>::to_rfc3339`; the text is named, not stated.
#[verifier::external_body]
pub(crate) fn format_rfc3339(t: UtcTimestamp) -> (r: String)
    requires
        representable(t),
    ensures
        r@ == spec_rfc3339(t.secs, t.nanos),
{
    chrono::DateTime::from_timestamp(t.secs, t.nanos).map(|d| d.to_rfc3339()).unwrap_or_default()
}

/// The instant that `DateTime::parse_from_rfc3339` reads from a text, as UTC
/// seconds and nanoseconds, or `None` where it refuses the text.
pub uninterp spec fn spec_parse_rfc3339(s: Seq<char>) -> Option<(i64, u32)>;

/// Parses an RFC 3339 text into a UTC instant.
///
/// Calls `chrono::DateTime::parse_from_rfc3339` and converts the result to
/// UTC; which texts it accepts and what they denote is named, not stated.
/// Of the instant it is stated only that it lies in chrono's range with at
/// most a leap second's worth of nanoseconds, and a leap second only in the
/// last second of a minute, as every chrono date-time does.
#[verifier::external_body]
pub(crate) fn parse_rfc3339(s: &str) -> (r: Option<UtcTimestamp>)
    ensures
        r matches Some(t) ==> spec_parse_rfc3339(s@) == Some((t.secs, t.nanos)),
        r matches Some(t) ==> chrono_instant(t),
        r is None ==> spec_parse_rfc3339(s@) is None,
{
    chrono::DateTime::parse_from_rfc3339(s).ok().map(
        |d| UtcTimestamp { secs: d.timestamp(), nanos: d.timestamp_subsec_nanos() },
    )
}


/// The whole seconds between two chrono instants differ from the
/// difference of their second counts by at most three: a leap second on
/// either side and the nanoseconds account for the rest.
pub proof fn lemma_whole_secs_close(a: UtcTimestamp, b: UtcTimestamp)
    requires
        chrono_instant(a),
        chrono_instant(b),
    ensures
        a.secs - b.secs - 3 <= whole_secs_since(a, b) <= a.secs - b.secs + 3,
{
    let frac: int = a.nanos - b.nanos;
    assert(-2 <= frac / (NANOS_PER_SEC as int) <= 1) by (nonlinear_arith)
        requires
            -2_000_000_000 < frac < 2_000_000_000,
            NANOS_PER_SEC == 1_000_000_000,
    ;
}

} // verus!
