//! Event manifests: the list of an event's files with their SHA-256 digests.
use crate::clock::{UtcTimestamp, utc_now, format_event_time, spec_event_time_text, representable};
use crate::digest::{sha256_hex, spec_sha256_hex};
use crate::ids::{new_uuid_string, uuid_v4_text};
use crate::text::{push_str, push_char, string_from_chars, chars_of, opt_view};
use vstd::prelude::*;

verus! {

/// One file of an event, with its digest and size.
#[derive(Debug)]
pub struct FileEntry {
    pub name: String,
    pub sha256: String,
    pub size_bytes: u64,
}

/// The manifest that travels with an event's files.
#[derive(Debug)]
pub struct EventManifest {
    pub event_id: String,
    pub station_id: String,
    pub device_id: String,
    pub created_at_utc: UtcTimestamp,
    pub files: Vec<FileEntry>,
    pub source_path: String,
    pub schema_version: u32,
}

/// A file read from disk for a manifest: its name, where it has one that is
/// valid text, and its contents.
pub struct FileData {
    pub name: Option<String>,
    pub data: Vec<u8>,
}

/// The name recorded for a file: its own, or "unknown".
pub open spec fn entry_name(name: Option<Seq<char>>) -> Seq<char> {
    match name {
        Some(n) => n,
        None => seq!['u', 'n', 'k', 'n', 'o', 'w', 'n'],
    }
}

/// The manifest entry for a file read from disk.
pub open spec fn spec_file_entry(f: FileData) -> (Seq<char>, Seq<char>, nat) {
    (entry_name(opt_view(f.name)), spec_sha256_hex(f.data@), f.data@.len())
}

/// The event id: station, device, time stamp and the first eight characters
/// of a random identifier, joined by underscores.
pub open spec fn spec_event_id(
    station_id: Seq<char>,
    device_id: Seq<char>,
    stamp: Seq<char>,
    random_id: Seq<char>,
) -> Seq<char> {
    station_id + seq!['_'] + device_id + seq!['_'] + stamp + seq!['_'] + random_id.take(8)
}

/// The schema version that manifests carry.
pub const SCHEMA_VERSION: u32 = 1;

/// The total size of the files that `entries` describe.
pub open spec fn total_size(entries: Seq<FileEntry>) -> nat
    decreases entries.len(),
{
    if entries.len() == 0 {
        0
    } else {
        total_size(entries.drop_last()) + entries.last().size_bytes as nat
    }
}

/// Builds the manifest entry of one file.
pub fn file_entry(f: &FileData) -> (e: FileEntry)
    ensures
        (e.name@, e.sha256@, e.size_bytes as nat) == spec_file_entry(*f),
{
    let name = match &f.name {
        Some(n) => {
            let v = chars_of(n.as_str());
            string_from_chars(&v)
        },
        None => {
            let mut s = String::new();
            push_str(&mut s, "unknown");
            proof {
                reveal_strlit("unknown");
            }
            assert(s@ =~= seq!['u', 'n', 'k', 'n', 'o', 'w', 'n']);
            s
        },
    };
    FileEntry { name, sha256: sha256_hex(f.data.as_slice()), size_bytes: f.data.len() as u64 }
}

/// Joins the parts of an event id.
pub fn compose_event_id(station_id: &str, device_id: &str, stamp: &str, random_id: &str) -> (r:
    String)
    requires
        random_id@.len() >= 8,
    ensures
        r@ == spec_event_id(station_id@, device_id@, stamp@, random_id@),
{
    let mut r = String::new();
    push_str(&mut r, station_id);
    push_char(&mut r, '_');
    push_str(&mut r, device_id);
    push_char(&mut r, '_');
    push_str(&mut r, stamp);
    push_char(&mut r, '_');
    let rv = chars_of(random_id);
    let mut i: usize = 0;
    let ghost base = r@;
    while i < 8
        invariant
            i <= 8,
            rv@ == random_id@,
            rv@.len() >= 8,
            r@ == base + rv@.take(i as int),
        decreases 8 - i,
    {
        push_char(&mut r, rv[i]);
        assert(rv@.take(i + 1) =~= rv@.take(i as int).push(rv@[i as int]));
        i = i + 1;
    }
    assert(r@ =~= spec_event_id(station_id@, device_id@, stamp@, random_id@));
    r
}

impl EventManifest {
    /// The manifest of an event made at `now` from `files` (read in that
    /// order), with the given time stamp text and random identifier.
    pub fn build_at(
        station_id: &str,
        device_id: &str,
        files: &Vec<FileData>,
        source_path: &str,
        now: UtcTimestamp,
        stamp: &str,
        random_id: &str,
    ) -> (m: EventManifest)
        requires
            random_id@.len() >= 8,
        ensures
            m.event_id@ == spec_event_id(station_id@, device_id@, stamp@, random_id@),
            m.station_id@ == station_id@,
            m.device_id@ == device_id@,
            m.created_at_utc == now,
            m.files@.len() == files@.len(),
            forall|i: int|
                0 <= i < files@.len() ==> (m.files@[i].name@, m.files@[i].sha256@,
                    m.files@[i].size_bytes as nat) == spec_file_entry(#[trigger] files@[i]),
            m.source_path@ == source_path@,
            m.schema_version == SCHEMA_VERSION,
    {
        let event_id = compose_event_id(station_id, device_id, stamp, random_id);
        let mut entries: Vec<FileEntry> = Vec::new();
        let mut i: usize = 0;
        while i < files.len()
            invariant
                i <= files.len(),
                entries@.len() == i,
                forall|j: int|
                    0 <= j < i ==> (entries@[j].name@, entries@[j].sha256@,
                        entries@[j].size_bytes as nat) == spec_file_entry(#[trigger] files@[j]),
            decreases files.len() - i,
        {
            let e = file_entry(&files[i]);
            entries.push(e);
            i = i + 1;
        }
        EventManifest {
            event_id,
            station_id: to_string(station_id),
            device_id: to_string(device_id),
            created_at_utc: now,
            files: entries,
            source_path: to_string(source_path),
            schema_version: SCHEMA_VERSION,
        }
    }

    /// The manifest of a new event from the files read from disk: stamped
    /// with the current time and a fresh random identifier.
    pub fn build(station_id: &str, device_id: &str, files: &Vec<FileData>, source_path: &str) -> (m:
        EventManifest)
        ensures
            exists|random_id: Seq<char>|
                uuid_v4_text(random_id) && m.event_id@ == spec_event_id(
                    station_id@,
                    device_id@,
                    spec_event_time_text(m.created_at_utc.secs, m.created_at_utc.nanos),
                    random_id,
                ),
            representable(m.created_at_utc),
            m.station_id@ == station_id@,
            m.device_id@ == device_id@,
            m.files@.len() == files@.len(),
            forall|i: int|
                0 <= i < files@.len() ==> (m.files@[i].name@, m.files@[i].sha256@,
                    m.files@[i].size_bytes as nat) == spec_file_entry(#[trigger] files@[i]),
            m.source_path@ == source_path@,
            m.schema_version == SCHEMA_VERSION,
    {
        let now = utc_now();
        let stamp = format_event_time(now);
        let random_id = new_uuid_string();
        let m = Self::build_at(
            station_id,
            device_id,
            files,
            source_path,
            now,
            stamp.as_str(),
            random_id.as_str(),
        );
        assert(uuid_v4_text(random_id@));
        m
    }

    /// The total size of the event's files.
    pub fn total_size_bytes(&self) -> (r: u64)
        requires
            total_size(self.files@) <= u64::MAX,
        ensures
            r as nat == total_size(self.files@),
    {
        let mut sum: u64 = 0;
        let mut i: usize = 0;
        while i < self.files.len()
            invariant
                i <= self.files.len(),
                total_size(self.files@) <= u64::MAX,
                sum as nat == total_size(self.files@.take(i as int)),
            decreases self.files.len() - i,
        {
            assert(self.files@.take(i + 1).drop_last() =~= self.files@.take(i as int));
            proof {
                lemma_total_size_prefix(self.files@, i as int + 1);
            }
            sum = sum + self.files[i].size_bytes;
            i = i + 1;
        }
        assert(self.files@.take(i as int) =~= self.files@);
        sum
    }
}

/// The total of a prefix is at most the total of the whole.
pub proof fn lemma_total_size_prefix(s: Seq<FileEntry>, k: int)
    requires
        0 <= k <= s.len(),
    ensures
        total_size(s.take(k)) <= total_size(s),
    decreases s.len(),
{
    if k < s.len() {
        assert(s.drop_last().take(k) =~= s.take(k));
        lemma_total_size_prefix(s.drop_last(), k);
    } else {
        assert(s.take(k) =~= s);
    }
}

/// A string slice copied into a new `String`.
fn to_string(s: &str) -> (r: String)
    ensures
        r@ == s@,
{
    let v = chars_of(s);
    string_from_chars(&v)
}

} // verus!
