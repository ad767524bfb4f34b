//! The agent's persistent upload queue: which stored items are still due to
//! be sent, and in what order.
use crate::clock::UtcTimestamp;
use crate::substation::manifest::EventManifest;
use crate::text::{push_str, str_eq};
use crate::paths::path_join;
use std::path::PathBuf;
use vstd::prelude::*;

verus! {

/// Where a queued event stands.
#[derive(Clone, Copy, Debug, PartialEq, Eq, Structural)]
pub enum QueueItemStatus {
    Pending,
    Sending,
    Sent,
    Failed,
}

/// One queued event: its manifest, its spooled files and its upload history.
#[derive(Debug)]
pub struct QueueItem {
    pub event_id: String,
    pub manifest: EventManifest,
    pub files: Vec<PathBuf>,
    pub status: QueueItemStatus,
    pub attempts: u32,
    pub last_error: Option<String>,
    pub queued_at: UtcTimestamp,
    pub sent_at: Option<UtcTimestamp>,
}

/// One file found in the queue directory: its extension, where it has one
/// that is valid text, and the item read from it, where it was read and
/// parsed.
pub struct QueueEntry {
    pub extension: Option<String>,
    pub item: Option<QueueItem>,
}

/// The queue of events waiting for upload, one file per event in `queue_dir`.
pub struct LocalQueue {
    pub queue_dir: PathBuf,
}

/// The status of an item that is still due to be sent.
pub open spec fn is_due(status: QueueItemStatus) -> bool {
    status == QueueItemStatus::Pending || status == QueueItemStatus::Sending
}

/// The extension of queue files.
pub open spec fn json_ext() -> Seq<char> {
    seq!['j', 's', 'o', 'n']
}

/// The entry is a queue file whose item is still due to be sent.
pub open spec fn is_pending_entry(e: QueueEntry) -> bool {
    &&& e.extension matches Some(x) && x@ == json_ext()
    &&& e.item matches Some(it) && is_due(it.status)
}

/// The items of the entries that are pending, in the order of the entries.
pub open spec fn pending_items(entries: Seq<QueueEntry>) -> Seq<QueueItem>
    decreases entries.len(),
{
    if entries.len() == 0 {
        Seq::empty()
    } else {
        let rest = pending_items(entries.drop_last());
        if is_pending_entry(entries.last()) {
            rest.push(entries.last().item.unwrap())
        } else {
            rest
        }
    }
}

/// `a` is queued no later than `b`.
pub open spec fn queued_no_later(a: QueueItem, b: QueueItem) -> bool {
    !b.queued_at.spec_before(a.queued_at)
}

/// The items are in order of their queueing time.
pub open spec fn sorted_by_queue_time(items: Seq<QueueItem>) -> bool {
    forall|i: int, j: int|
        0 <= i < j < items.len() ==> queued_no_later(#[trigger] items[i], #[trigger] items[j])
}

/// The items queued at time `t`, in their order.
pub open spec fn same_time(s: Seq<QueueItem>, t: UtcTimestamp) -> Seq<QueueItem> {
    s.filter(|x: QueueItem| x.queued_at == t)
}

/// `sorted` orders `items` by queueing time and keeps items queued at the
/// same time in their order: the items queued at any one time form the same
/// sequence in both.
pub open spec fn stable_sort_of(sorted: Seq<QueueItem>, items: Seq<QueueItem>) -> bool {
    &&& sorted_by_queue_time(sorted)
    &&& sorted.to_multiset() == items.to_multiset()
    &&& forall|t: UtcTimestamp| #[trigger] same_time(sorted, t) == same_time(items, t)
}

impl QueueItem {
    /// A newly queued event: pending, never tried, queued at `now`, under
    /// its manifest's event id.
    pub fn new_pending(manifest: EventManifest, files: Vec<PathBuf>, now: UtcTimestamp) -> (r: QueueItem)
        ensures
            r.event_id@ == manifest.event_id@,
            r.manifest == manifest,
            r.files == files,
            r.status == QueueItemStatus::Pending,
            r.attempts == 0,
            r.last_error is None,
            r.queued_at == now,
            r.sent_at is None,
    {
        let event_id = crate::text::to_owned_string(manifest.event_id.as_str());
        QueueItem {
            event_id,
            manifest,
            files,
            status: QueueItemStatus::Pending,
            attempts: 0,
            last_error: None,
            queued_at: now,
            sent_at: None,
        }
    }
}

impl LocalQueue {
    /// A queue kept in `queue_dir`.
    pub fn new(queue_dir: PathBuf) -> (q: Self)
        ensures
            q.queue_dir == queue_dir,
    {
        LocalQueue { queue_dir }
    }

    /// The file name under which an event is stored: its id with `.json`.
    pub fn item_file_name(event_id: &str) -> (r: String)
        ensures
            r@ == event_id@ + json_ext().insert(0, '.'),
    {
        let mut r = String::new();
        push_str(&mut r, event_id);
        push_str(&mut r, ".json");
        proof {
            reveal_strlit(".json");
        }
        assert(r@ =~= event_id@ + json_ext().insert(0, '.'));
        r
    }

    /// The path of an event's file in the queue directory.
    pub fn item_path(&self, event_id: &str) -> PathBuf {
        let name = Self::item_file_name(event_id);
        path_join(&self.queue_dir, name.as_str())
    }

    /// Whether a directory entry is a queue file holding an item due to be sent.
    pub fn is_pending(e: &QueueEntry) -> (r: bool)
        ensures
            r == is_pending_entry(*e),
    {
        let is_json = match &e.extension {
            Some(x) => {
                let b = str_eq(x.as_str(), "json");
                proof {
                    reveal_strlit("json");
                }
                assert("json"@ =~= json_ext());
                b
            },
            None => false,
        };
        if !is_json {
            return false;
        }
        match &e.item {
            Some(it) => it.status == QueueItemStatus::Pending || it.status
                == QueueItemStatus::Sending,
            None => false,
        }
    }

    /// The items still due to be sent, out of the entries read from the
    /// queue directory: queue files whose item is pending or being sent,
    /// ordered by queueing time, items queued at the same time in the order
    /// of the entries.
    pub fn select_pending(&self, entries: Vec<QueueEntry>) -> (r: Vec<QueueItem>)
        ensures
            stable_sort_of(r@, pending_items(entries@)),
    {
        let ghost all = entries@;
        let mut rest = entries;
        let mut out: Vec<QueueItem> = Vec::new();
        let mut k: usize = 0;
        let n = rest.len();
        let ghost done: Seq<QueueItem> = Seq::empty();
        while k < n
            invariant
                n == all.len(),
                k <= n,
                rest@ == all.subrange(k as int, n as int),
                done == pending_items(all.take(k as int)),
                stable_sort_of(out@, done),
            decreases n - k,
        {
            let e = rest.remove(0);
            assert(all.take(k + 1).drop_last() =~= all.take(k as int));
            assert(all.take(k + 1).last() == e);
            if Self::is_pending(&e) {
                let item = e.item.unwrap();
                insert_by_queue_time(&mut out, item, Ghost(done));
                proof {
                    done = done.push(item);
                }
            }
            k = k + 1;
        }
        assert(all.take(n as int) =~= all);
        out
    }

    /// How many items are due to be sent: none where the queue directory
    /// could not be read, else as many as `select_pending` gives.
    pub fn count_pending(&self, listing: Option<Vec<QueueEntry>>) -> (r: usize)
        ensures
            r as nat == match listing {
                Some(es) => pending_items(es@).len(),
                None => 0,
            },
    {
        match listing {
            Some(es) => {
                let items = self.select_pending(es);
                proof {
                    vstd::seq_lib::to_multiset_len(items@);
                    vstd::seq_lib::to_multiset_len(pending_items(es@));
                }
                items.len()
            },
            None => 0,
        }
    }
}

/// Inserts `item` after every item queued no later than it.
fn insert_by_queue_time(out: &mut Vec<QueueItem>, item: QueueItem, Ghost(before): Ghost<
    Seq<QueueItem>>)
    requires
        stable_sort_of(old(out)@, before),
    ensures
        stable_sort_of(final(out)@, before.push(item)),
{
    let ghost o = out@;
    let mut pos: usize = out.len();
    while pos > 0 && item.queued_at.is_before(&out[pos - 1].queued_at)
        invariant
            out@ == o,
            pos <= o.len(),
            forall|j: int| pos <= j < o.len() ==> item.queued_at.spec_before(#[trigger] o[j].queued_at),
        decreases pos,
    {
        pos = pos - 1;
    }
    out.insert(pos, item);
    proof {
        let s = out@;
        assert(s == o.insert(pos as int, item));
        vstd::seq_lib::to_multiset_insert(o, pos as int, item);
        assert(before.push(item) =~= before.insert(before.len() as int, item));
        vstd::seq_lib::to_multiset_insert(before, before.len() as int, item);
        assert forall|i: int, j: int|
            0 <= i < j < s.len() implies queued_no_later(#[trigger] s[i], #[trigger] s[j]) by {
            if i < pos && j == pos {
                if pos > 0 {
                    assert(queued_no_later(o[i], o[pos - 1]) || i == pos - 1);
                }
            }
        }
        assert forall|t: UtcTimestamp|
            same_time(s, t) == same_time(before.push(item), t) by {
            lemma_filter_insert_after_equal_keys(o, pos as int, item, t);
            lemma_filter_push(before, item, t);
            assert(same_time(o, t) == same_time(before, t));
        }
    }
}

/// Filtering by a queueing time after a push.
proof fn lemma_filter_push(s: Seq<QueueItem>, item: QueueItem, t: UtcTimestamp)
    ensures
        same_time(s.push(item), t) == if item.queued_at == t {
            same_time(s, t).push(item)
        } else {
            same_time(s, t)
        },
{
    reveal_with_fuel(Seq::filter, 1);
    assert(s.push(item).drop_last() =~= s);
}

/// Inserting an item after every item with the same or an earlier key, and
/// before items with later keys, appends it to the items with its own key.
proof fn lemma_filter_insert_after_equal_keys(o: Seq<QueueItem>, pos: int, item: QueueItem, t: UtcTimestamp)
    requires
        0 <= pos <= o.len(),
        forall|j: int| pos <= j < o.len() ==> item.queued_at.spec_before(#[trigger] o[j].queued_at),
    ensures
        same_time(o.insert(pos, item), t) == if item.queued_at == t {
            same_time(o, t).push(item)
        } else {
            same_time(o, t)
        },
    decreases o.len() - pos,
{
    let f = |x: QueueItem| x.queued_at == t;
    if pos == o.len() {
        assert(o.insert(pos, item) =~= o.push(item));
        lemma_filter_push(o, item, t);
    } else {
        let last = o.last();
        assert(item.queued_at.spec_before(last.queued_at));
        lemma_filter_insert_after_equal_keys(o.drop_last(), pos, item, t);
        assert(o.insert(pos, item) =~= o.drop_last().insert(pos, item).push(last));
        lemma_filter_push(o.drop_last().insert(pos, item), last, t);
        lemma_filter_push(o.drop_last(), last, t);
        assert(o.drop_last().push(last) =~= o);
        if item.queued_at == t {
            assert(last.queued_at != t);
        }
    }
}

/// A pending entry's item is among the pending items.
proof fn lemma_pending_entry_listed(entries: Seq<QueueEntry>, i: int)
    requires
        0 <= i < entries.len(),
        is_pending_entry(entries[i]),
    ensures
        pending_items(entries).contains(entries[i].item->Some_0),
    decreases entries.len(),
{
    let rest = pending_items(entries.drop_last());
    if i == entries.len() - 1 {
        assert(pending_items(entries) == rest.push(entries.last().item.unwrap()));
        assert(pending_items(entries)[rest.len() as int] == entries[i].item->Some_0);
    } else {
        assert(entries.drop_last()[i] == entries[i]);
        lemma_pending_entry_listed(entries.drop_last(), i);
        let k = choose|k: int| 0 <= k < rest.len() && rest[k] == entries[i].item->Some_0;
        if is_pending_entry(entries.last()) {
            assert(pending_items(entries)[k] == rest[k]);
        }
    }
}

/// The queue persists its items: an item read back from a queue file with
/// the queue's extension, and not yet sent nor given up, is selected for
/// sending again, whatever else the queue holds.
pub proof fn law_queued_item_is_selected_again(entries: Seq<QueueEntry>, i: int, selected: Seq<QueueItem>)
    requires
        0 <= i < entries.len(),
        is_pending_entry(entries[i]),
        stable_sort_of(selected, pending_items(entries)),
    ensures
        selected.contains(entries[i].item->Some_0),
{
    lemma_pending_entry_listed(entries, i);
    let it = entries[i].item->Some_0;
    pending_items(entries).to_multiset_ensures();
    selected.to_multiset_ensures();
    assert(pending_items(entries).to_multiset().count(it) > 0);
    assert(selected.to_multiset().count(it) > 0);
}

} // verus!
