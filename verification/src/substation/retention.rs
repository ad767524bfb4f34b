//! Local retention of the agent: how long sent, failed and log files are
//! kept, given how full the disk is, and which entries a cleanup removes.
use crate::clock::{UtcTimestamp, SECS_PER_DAY};
use crate::substation::config::AgentConfig;
use crate::text::{to_lowercase, spec_to_lowercase, starts_with, is_prefix};
use vstd::prelude::*;

verus! {

/// Days of retention that a critical disk forces on sent events.
pub const CRITICAL_RETENTION_DAYS: u32 = 7;

/// Bytes in a MiB.
pub const BYTES_PER_MIB: u64 = 1024 * 1024;

/// One mounted disk as the system reports it.
pub struct DiskInfo {
    /// Where the disk is mounted, as text.
    pub mount_point: String,
    pub total_space: u64,
    pub available_space: u64,
}

/// How the disk's fill level bears on retention.
#[derive(Clone, Copy, Debug, PartialEq, Eq, Structural)]
pub enum DiskLevel {
    /// Keep sent events for the configured maximum.
    Normal,
    /// Keep sent events only for the configured minimum.
    Reduced,
    /// Keep sent events for the forced critical minimum.
    Critical,
}

/// What one cleanup cycle does: the disk readings it acted on, whether to
/// raise the disk alert, and how many days each area keeps.
#[derive(Clone, Copy, Debug)]
pub struct CleanupSchedule {
    pub disk_pct: u64,
    pub free_mb: u64,
    /// The disk is at or above the alert threshold.
    pub alert: bool,
    pub level: DiskLevel,
    /// Days that sent/ keeps its event directories.
    pub sent_days: u32,
    /// Days that error/ keeps its event directories.
    pub error_days: u32,
    /// Days that the log directory keeps its files.
    pub log_days: u32,
}

/// What a directory entry is, and when it was last modified.
#[derive(Clone, Copy, Debug)]
pub struct EntryInfo {
    pub is_dir: bool,
    pub is_file: bool,
    pub modified: UtcTimestamp,
}

/// Manages the agent's local retention.
pub struct RetentionManager {
    pub config: AgentConfig,
}

/// The disk is mounted where the watched drive names, compared without case.
pub open spec fn disk_matches(d: DiskInfo, drive: Seq<char>) -> bool {
    is_prefix(spec_to_lowercase(drive), spec_to_lowercase(d.mount_point@))
}

/// The space in use on a disk.
pub open spec fn used_space(d: DiskInfo) -> nat {
    if d.available_space <= d.total_space {
        (d.total_space - d.available_space) as nat
    } else {
        0
    }
}

/// The percentage of the watched drive in use: that of the first matching
/// disk with a nonzero size, or zero where there is none.
pub open spec fn usage_pct(disks: Seq<DiskInfo>, drive: Seq<char>) -> nat
    decreases disks.len(),
{
    if disks.len() == 0 {
        0
    } else if disk_matches(disks[0], drive) && disks[0].total_space > 0 {
        used_space(disks[0]) * 100 / disks[0].total_space as nat
    } else {
        usage_pct(disks.drop_first(), drive)
    }
}

/// The usage percentage is computed without overflow: the disk it is taken
/// from has fewer than `u64::MAX / 100` bytes in use.
pub open spec fn usage_computable(disks: Seq<DiskInfo>, drive: Seq<char>) -> bool
    decreases disks.len(),
{
    if disks.len() == 0 {
        true
    } else if disk_matches(disks[0], drive) && disks[0].total_space > 0 {
        used_space(disks[0]) * 100 <= u64::MAX
    } else {
        usage_computable(disks.drop_first(), drive)
    }
}

/// The free space of the watched drive in MiB: that of the first matching
/// disk, or `u64::MAX` where there is none.
pub open spec fn free_mib(disks: Seq<DiskInfo>, drive: Seq<char>) -> nat
    decreases disks.len(),
{
    if disks.len() == 0 {
        u64::MAX as nat
    } else if disk_matches(disks[0], drive) {
        disks[0].available_space as nat / BYTES_PER_MIB as nat
    } else {
        free_mib(disks.drop_first(), drive)
    }
}

/// The disk level for a usage percentage and free space.
pub open spec fn spec_level(disk: DiskConfigView, pct: nat, free_mb: nat) -> DiskLevel {
    if pct >= disk.force_pct || free_mb < disk.min_free_mb {
        DiskLevel::Critical
    } else if pct >= disk.reduce_pct {
        DiskLevel::Reduced
    } else {
        DiskLevel::Normal
    }
}

/// The retention that the disk allows at a level: the forced critical
/// minimum, the configured minimum, or the configured maximum.
pub open spec fn level_days(level: DiskLevel, sent_days: nat, sent_max_days: nat) -> nat {
    match level {
        DiskLevel::Critical => CRITICAL_RETENTION_DAYS as nat,
        DiskLevel::Reduced => sent_days,
        DiskLevel::Normal => sent_max_days,
    }
}

/// The days that sent/ keeps its events at a disk level: the smaller of
/// the configured maximum and what the disk allows.
pub open spec fn spec_sent_days(level: DiskLevel, sent_days: nat, sent_max_days: nat) -> nat {
    let d = level_days(level, sent_days, sent_max_days);
    if d <= sent_max_days { d } else { sent_max_days }
}

/// The disk settings that the retention decision reads.
pub struct DiskConfigView {
    pub warn_pct: nat,
    pub reduce_pct: nat,
    pub force_pct: nat,
    pub min_free_mb: nat,
}

/// The disk settings of an agent configuration.
pub open spec fn disk_view(cfg: AgentConfig) -> DiskConfigView {
    DiskConfigView {
        warn_pct: cfg.disk.warn_threshold_pct as nat,
        reduce_pct: cfg.disk.reduce_retention_threshold_pct as nat,
        force_pct: cfg.disk.force_cleanup_threshold_pct as nat,
        min_free_mb: cfg.disk.min_free_mb as nat,
    }
}

/// The schedule that a cleanup cycle follows, given the disks as reported.
pub open spec fn spec_schedule(cfg: AgentConfig, disks: Seq<DiskInfo>) -> (nat, nat, bool, DiskLevel, nat, nat, nat) {
    let pct = usage_pct(disks, cfg.disk.drive@);
    let free = free_mib(disks, cfg.disk.drive@);
    let level = spec_level(disk_view(cfg), pct, free);
    (
        pct,
        free,
        pct >= cfg.disk.warn_threshold_pct,
        level,
        spec_sent_days(level, cfg.retention.sent_retention_days as nat, cfg.retention.sent_retention_max_days as nat),
        cfg.retention.error_retention_days as nat,
        cfg.retention.log_retention_days as nat,
    )
}

/// A cleanup removes this entry: it is of the kind the area keeps
/// (directories, or plain files) and was last modified before the cutoff.
pub open spec fn expires(e: EntryInfo, want_dirs: bool, cutoff: UtcTimestamp) -> bool {
    (if want_dirs { e.is_dir } else { e.is_file }) && e.modified.spec_before(cutoff)
}

/// `r` lists, in increasing order, exactly the indices of the entries that expire.
pub open spec fn is_expired_listing(r: Seq<usize>, entries: Seq<EntryInfo>, want_dirs: bool, cutoff: UtcTimestamp) -> bool {
    &&& forall|k: int| #![trigger r[k]] 0 <= k < r.len() ==> r[k] < entries.len() && expires(entries[r[k] as int], want_dirs, cutoff)
    &&& forall|k: int, l: int| 0 <= k < l < r.len() ==> #[trigger] r[k] < #[trigger] r[l]
    &&& forall|i: int| 0 <= i < entries.len() && expires(#[trigger] entries[i], want_dirs, cutoff) ==> r.contains(i as usize)
}

/// The instant `days` whole days before `now`.
pub open spec fn spec_cutoff(now: UtcTimestamp, days: nat) -> UtcTimestamp {
    UtcTimestamp { secs: (now.secs - days * SECS_PER_DAY) as i64, nanos: now.nanos }
}

impl RetentionManager {
    /// A retention manager for an agent configuration.
    pub fn new(config: AgentConfig) -> (r: Self)
        ensures
            r.config == config,
    {
        RetentionManager { config }
    }

    /// Plans one cleanup cycle from the disks the system reports: measures
    /// the watched drive, decides whether to alert, and picks how long each
    /// area keeps its entries. sent/ keeps its events for the configured
    /// maximum while the disk allows, for the configured minimum once usage
    /// reaches the reduce threshold, and for seven days once it reaches the
    /// force threshold or free space falls under the reserve.
    pub fn run_cleanup(&self, disks: &Vec<DiskInfo>) -> (s: CleanupSchedule)
        requires
            usage_computable(disks@, self.config.disk.drive@),
        ensures
            (s.disk_pct as nat, s.free_mb as nat, s.alert, s.level, s.sent_days as nat,
                s.error_days as nat, s.log_days as nat) == spec_schedule(self.config, disks@),
    {
        let disk_pct = get_disk_usage_pct(disks, self.config.disk.drive.as_str());
        let free_mb = get_disk_free_mb(disks, self.config.disk.drive.as_str());
        let alert = disk_pct >= self.config.disk.warn_threshold_pct;
        let level = if disk_pct >= self.config.disk.force_cleanup_threshold_pct || free_mb
            < self.config.disk.min_free_mb {
            DiskLevel::Critical
        } else if disk_pct >= self.config.disk.reduce_retention_threshold_pct {
            DiskLevel::Reduced
        } else {
            DiskLevel::Normal
        };
        let allowed = match level {
            DiskLevel::Critical => CRITICAL_RETENTION_DAYS,
            DiskLevel::Reduced => self.config.retention.sent_retention_days,
            DiskLevel::Normal => self.config.retention.sent_retention_max_days,
        };
        let max = self.config.retention.sent_retention_max_days;
        let sent_days = if allowed <= max { allowed } else { max };
        CleanupSchedule {
            disk_pct,
            free_mb,
            alert,
            level,
            sent_days,
            error_days: self.config.retention.error_retention_days,
            log_days: self.config.retention.log_retention_days,
        }
    }
}

/// Whether a disk is mounted where the watched drive names, without case.
pub fn disk_is_drive(d: &DiskInfo, drive: &str) -> (r: bool)
    ensures
        r == disk_matches(*d, drive@),
{
    let mount = to_lowercase(d.mount_point.as_str());
    let want = to_lowercase(drive);
    starts_with(mount.as_str(), want.as_str())
}

/// The percentage of the watched drive in use.
/// Whether the watched drive's usage percentage can be computed without
/// overflow, for the callers of `get_disk_usage_pct` and `run_cleanup`.
pub fn usage_is_computable(disks: &Vec<DiskInfo>, drive: &str) -> (r: bool)
    ensures
        r == usage_computable(disks@, drive@),
{
    let mut i: usize = 0;
    assert(disks@.skip(0) =~= disks@);
    while i < disks.len()
        invariant
            i <= disks.len(),
            usage_computable(disks@.skip(i as int), drive@) == usage_computable(disks@, drive@),
        decreases disks.len() - i,
    {
        let d = &disks[i];
        assert(disks@.skip(i as int)[0] == disks@[i as int]);
        assert(disks@.skip(i as int).drop_first() =~= disks@.skip(i + 1));
        if disk_is_drive(d, drive) && d.total_space > 0 {
            let used = if d.available_space <= d.total_space { d.total_space - d.available_space } else { 0 };
            assert(used as nat == used_space(*d));
            return used <= u64::MAX / 100;
        }
        i = i + 1;
    }
    assert(disks@.skip(i as int).len() == 0);
    true
}

pub fn get_disk_usage_pct(disks: &Vec<DiskInfo>, drive: &str) -> (r: u64)
    requires
        usage_computable(disks@, drive@),
    ensures
        r as nat == usage_pct(disks@, drive@),
{
    let mut i: usize = 0;
    assert(disks@.skip(0) =~= disks@);
    while i < disks.len()
        invariant
            i <= disks.len(),
            usage_pct(disks@.skip(i as int), drive@) == usage_pct(disks@, drive@),
            usage_computable(disks@.skip(i as int), drive@),
        decreases disks.len() - i,
    {
        let d = &disks[i];
        assert(disks@.skip(i as int)[0] == disks@[i as int]);
        assert(disks@.skip(i as int).drop_first() =~= disks@.skip(i + 1));
        if disk_is_drive(d, drive) {
            let total = d.total_space;
            let avail = d.available_space;
            if total > 0 {
                let used = if avail <= total { total - avail } else { 0 };
                assert(used as nat == used_space(*d));
                return (used * 100) / total;
            }
        }
        i = i + 1;
    }
    assert(disks@.skip(i as int).len() == 0);
    0
}

/// The free space of the watched drive, in MiB.
pub fn get_disk_free_mb(disks: &Vec<DiskInfo>, drive: &str) -> (r: u64)
    ensures
        r as nat == free_mib(disks@, drive@),
{
    let mut i: usize = 0;
    assert(disks@.skip(0) =~= disks@);
    while i < disks.len()
        invariant
            i <= disks.len(),
            free_mib(disks@.skip(i as int), drive@) == free_mib(disks@, drive@),
        decreases disks.len() - i,
    {
        let d = &disks[i];
        assert(disks@.skip(i as int)[0] == disks@[i as int]);
        assert(disks@.skip(i as int).drop_first() =~= disks@.skip(i + 1));
        if disk_is_drive(d, drive) {
            return d.available_space / BYTES_PER_MIB;
        }
        i = i + 1;
    }
    assert(disks@.skip(i as int).len() == 0);
    u64::MAX
}

/// The instant before which an area's entries expire: `days` whole days
/// before `now`.
pub fn retention_cutoff(now: UtcTimestamp, days: u32) -> (r: UtcTimestamp)
    requires
        now.secs - days * SECS_PER_DAY >= i64::MIN,
    ensures
        r == spec_cutoff(now, days as nat),
{
    let span: i64 = days as i64 * SECS_PER_DAY;
    UtcTimestamp { secs: now.secs - span, nanos: now.nanos }
}

/// The indices of the entries that a cleanup removes: directories (for
/// sent/ and error/) or plain files (for logs) last modified before the cutoff.
pub fn expired_entries(entries: &Vec<EntryInfo>, want_dirs: bool, cutoff: UtcTimestamp) -> (r: Vec<usize>)
    ensures
        is_expired_listing(r@, entries@, want_dirs, cutoff),
{
    let mut r: Vec<usize> = Vec::new();
    let mut i: usize = 0;
    while i < entries.len()
        invariant
            i <= entries.len(),
            forall|k: int| #![trigger r@[k]] 0 <= k < r@.len() ==> r@[k] < i && expires(entries@[r@[k] as int], want_dirs, cutoff),
            forall|k: int, l: int| 0 <= k < l < r@.len() ==> #[trigger] r@[k] < #[trigger] r@[l],
            forall|j: int| 0 <= j < i && expires(#[trigger] entries@[j], want_dirs, cutoff) ==> r@.contains(j as usize),
        decreases entries.len() - i,
    {
        let e = entries[i];
        let kind_ok = if want_dirs { e.is_dir } else { e.is_file };
        let ghost old_r = r@;
        if kind_ok && e.modified.is_before(&cutoff) {
            assert(expires(entries@[i as int], want_dirs, cutoff));
            r.push(i);
            assert(r@ == old_r.push(i));
            assert forall|k: int| #![trigger r@[k]] 0 <= k < r@.len() implies r@[k] < i + 1 && expires(
                entries@[r@[k] as int],
                want_dirs,
                cutoff,
            ) by {
                if k < old_r.len() {
                    assert(r@[k] == old_r[k]);
                } else {
                    assert(r@[k] == i);
                }
            }
            assert forall|j: int| 0 <= j < i + 1 && expires(#[trigger] entries@[j], want_dirs, cutoff) implies r@.contains(j as usize) by {
                if j < i {
                    let k = choose|k: int| 0 <= k < old_r.len() && old_r[k] == j as usize;
                    assert(r@[k] == j as usize);
                } else {
                    assert(r@[r@.len() - 1] == j as usize);
                }
            }
        }
        i = i + 1;
    }
    assert(is_expired_listing(r@, entries@, want_dirs, cutoff));
    r
}

/// The thresholds and retention days are ordered as the retention policy
/// intends: the reduce threshold does not exceed the force threshold, and
/// the critical minimum, the configured minimum and the configured maximum
/// are ordered.
pub open spec fn sane_retention(cfg: AgentConfig) -> bool {
    &&& cfg.disk.reduce_retention_threshold_pct <= cfg.disk.force_cleanup_threshold_pct
    &&& CRITICAL_RETENTION_DAYS <= cfg.retention.sent_retention_days
    &&& cfg.retention.sent_retention_days <= cfg.retention.sent_retention_max_days
}

/// The fuller the disk, the shorter sent/ keeps its events: with more usage
/// and no more free space, the retention of sent events never grows.
pub proof fn law_retention_shrinks_as_disk_fills(cfg: AgentConfig, pct1: nat, free1: nat, pct2: nat, free2: nat)
    requires
        sane_retention(cfg),
        pct1 <= pct2,
        free2 <= free1,
    ensures
        spec_sent_days(spec_level(disk_view(cfg), pct2, free2), cfg.retention.sent_retention_days as nat, cfg.retention.sent_retention_max_days as nat)
            <= spec_sent_days(spec_level(disk_view(cfg), pct1, free1), cfg.retention.sent_retention_days as nat, cfg.retention.sent_retention_max_days as nat),
{
}

/// The effective retention of sent events never exceeds the configured
/// maximum, whatever the configuration; and where the configured days are
/// ordered it never falls under the forced critical minimum.
pub proof fn law_retention_within_bounds(cfg: AgentConfig, pct: nat, free: nat)
    ensures
        spec_sent_days(spec_level(disk_view(cfg), pct, free), cfg.retention.sent_retention_days as nat, cfg.retention.sent_retention_max_days as nat)
            <= cfg.retention.sent_retention_max_days,
        sane_retention(cfg) ==> CRITICAL_RETENTION_DAYS <= spec_sent_days(spec_level(disk_view(cfg), pct, free), cfg.retention.sent_retention_days as nat, cfg.retention.sent_retention_max_days as nat),
{
}

/// A longer retention removes no more: whatever expires under the later
/// cutoff of a longer retention also expires under the cutoff of a shorter one.
pub proof fn law_longer_retention_removes_less(e: EntryInfo, want_dirs: bool, now: UtcTimestamp, short_days: nat, long_days: nat)
    requires
        short_days <= long_days,
        expires(e, want_dirs, spec_cutoff(now, long_days)),
        now.secs - long_days * SECS_PER_DAY >= i64::MIN,
    ensures
        expires(e, want_dirs, spec_cutoff(now, short_days)),
{
    assert(long_days * SECS_PER_DAY >= short_days * SECS_PER_DAY) by (nonlinear_arith)
        requires short_days <= long_days;
}

} // verus!
