//! The agent's inbox watcher: groups the files of one COMTRADE event by their
//! stem, waits until the event has been quiet for the debounce interval, and
//! hands on only events that have their `.cfg` file.
use crate::substation::config::AgentConfig;
use crate::substation::queue::LocalQueue;
use crate::text::{to_lowercase, spec_to_lowercase, str_eq, push_str, push_char};
use std::sync::Arc;
use vstd::prelude::*;

verus! {

/// The extensions of COMTRADE files.
#[derive(Clone, Copy, Debug, PartialEq, Eq, Structural)]
pub enum ComtradeExt {
    Cfg,
    Dat,
    Hdr,
    Inf,
}

/// The set of COMTRADE extensions seen for one event.
#[derive(Clone, Copy, Debug, PartialEq, Eq, Structural)]
pub struct ExtSet {
    pub cfg: bool,
    pub dat: bool,
    pub hdr: bool,
    pub inf: bool,
}

/// One event whose files are arriving: its stem, the extensions seen, and
/// when the last of them was seen (nanoseconds on the monotonic clock).
pub struct PendingEvent {
    pub stem: String,
    pub exts: ExtSet,
    pub last_seen: u128,
}

/// The watcher's debounce state: the events whose files are arriving, one
/// per stem.
pub struct Debouncer {
    pub events: Vec<PendingEvent>,
}

/// The inbox watcher of the agent.
pub struct InboxWatcher {
    pub config: Arc<AgentConfig>,
    pub queue: Arc<LocalQueue>,
}

/// The COMTRADE extension that a lower-case extension text names.
pub open spec fn spec_ext(e: Seq<char>) -> Option<ComtradeExt> {
    if e == seq!['c', 'f', 'g'] {
        Some(ComtradeExt::Cfg)
    } else if e == seq!['d', 'a', 't'] {
        Some(ComtradeExt::Dat)
    } else if e == seq!['h', 'd', 'r'] {
        Some(ComtradeExt::Hdr)
    } else if e == seq!['i', 'n', 'f'] {
        Some(ComtradeExt::Inf)
    } else {
        None
    }
}

/// The text of an extension, without the dot.
pub open spec fn ext_text(e: ComtradeExt) -> Seq<char> {
    match e {
        ComtradeExt::Cfg => seq!['c', 'f', 'g'],
        ComtradeExt::Dat => seq!['d', 'a', 't'],
        ComtradeExt::Hdr => seq!['h', 'd', 'r'],
        ComtradeExt::Inf => seq!['i', 'n', 'f'],
    }
}

impl ExtSet {
    /// No extension seen.
    pub open spec fn empty() -> ExtSet {
        ExtSet { cfg: false, dat: false, hdr: false, inf: false }
    }

    /// The set with `e` added.
    pub open spec fn with(self, e: ComtradeExt) -> ExtSet {
        match e {
            ComtradeExt::Cfg => ExtSet { cfg: true, ..self },
            ComtradeExt::Dat => ExtSet { dat: true, ..self },
            ComtradeExt::Hdr => ExtSet { hdr: true, ..self },
            ComtradeExt::Inf => ExtSet { inf: true, ..self },
        }
    }

    /// Adds `e` to the set.
    pub fn add(self, e: ComtradeExt) -> (r: ExtSet)
        ensures
            r == self.with(e),
    {
        match e {
            ComtradeExt::Cfg => ExtSet { cfg: true, ..self },
            ComtradeExt::Dat => ExtSet { dat: true, ..self },
            ComtradeExt::Hdr => ExtSet { hdr: true, ..self },
            ComtradeExt::Inf => ExtSet { inf: true, ..self },
        }
    }
}

/// Time elapsed from `t` to `now`, or zero where `t` is later
/// (`Instant::duration_since` saturates).
pub open spec fn elapsed(now: u128, t: u128) -> nat {
    if now >= t {
        (now - t) as nat
    } else {
        0
    }
}

/// An event seen last at `t` has been quiet for the debounce interval.
pub open spec fn is_quiet(now: u128, t: u128, debounce: u128) -> bool {
    elapsed(now, t) >= debounce
}

impl Debouncer {
    /// No two pending events share a stem.
    pub open spec fn wf(self) -> bool {
        forall|i: int, j: int|
            0 <= i < j < self.events@.len() ==> #[trigger] self.events@[i].stem@
                != #[trigger] self.events@[j].stem@
    }

    /// The stem has a pending event.
    pub open spec fn has(self, stem: Seq<char>) -> bool {
        exists|i: int| 0 <= i < self.events@.len() && #[trigger] self.events@[i].stem@ == stem
    }

    /// The pending events by stem: their extensions and when they were last seen.
    pub open spec fn view(self) -> Map<Seq<char>, (ExtSet, u128)> {
        Map::new(
            |k: Seq<char>| self.has(k),
            |k: Seq<char>|
                {
                    let i = choose|i: int|
                        0 <= i < self.events@.len() && #[trigger] self.events@[i].stem@ == k;
                    (self.events@[i].exts, self.events@[i].last_seen)
                },
        )
    }

    /// The extensions already seen for a stem.
    pub open spec fn seen(self, stem: Seq<char>) -> ExtSet {
        if self.view().dom().contains(stem) {
            self.view()[stem].0
        } else {
            ExtSet::empty()
        }
    }

    /// No event is pending.
    pub fn new() -> (d: Self)
        ensures
            d.wf(),
            d.view() == Map::<Seq<char>, (ExtSet, u128)>::empty(),
    {
        let d = Debouncer { events: Vec::new() };
        assert(d.view() =~= Map::<Seq<char>, (ExtSet, u128)>::empty());
        d
    }

    /// Records that a file of the inbox changed at `now`. A file whose
    /// lower-cased extension is not a COMTRADE one is ignored; else its
    /// extension is added to its stem's event, which is last seen now.
    pub fn on_path(&mut self, ext: &str, stem: String, now: u128)
        requires
            old(self).wf(),
        ensures
            final(self).wf(),
            spec_ext(spec_to_lowercase(ext@)) matches Some(e) ==> final(self).view() == old(
                self,
            ).view().insert(stem@, (old(self).seen(stem@).with(e), now)),
            spec_ext(spec_to_lowercase(ext@)) is None ==> final(self).view() == old(self).view(),
    {
        let lower = to_lowercase(ext);
        let e = match classify_ext(lower.as_str()) {
            Some(e) => e,
            None => {
                return;
            },
        };
        let ghost o = self.events@;
        let mut i: usize = 0;
        while i < self.events.len()
            invariant
                self.events@ == o,
                old(self).events@ == o,
                spec_ext(spec_to_lowercase(ext@)) == Some(e),
                self.wf(),
                i <= o.len(),
                forall|j: int| 0 <= j < i ==> #[trigger] o[j].stem@ != stem@,
            decreases o.len() - i,
        {
            if str_eq(self.events[i].stem.as_str(), stem.as_str()) {
                let exts = self.events[i].exts.add(e);
                let ghost old_self = *self;
                let mut ev = self.events.remove(i);
                ev.exts = exts;
                ev.last_seen = now;
                self.events.insert(i, ev);
                proof {
                    let n = self.events@;
                    assert(n =~= o.update(i as int, n[i as int]));
                    assert(n[i as int].stem == o[i as int].stem);
                    assert(old_self.has(stem@));
                    assert(old_self.view().dom().contains(stem@));
                    let j = choose|j: int| 0 <= j < o.len() && #[trigger] o[j].stem@ == stem@;
                    if j < i {
                        assert(o[j].stem@ != o[i as int].stem@);
                    } else if j > i {
                        assert(o[i as int].stem@ != o[j].stem@);
                    }
                    assert(old_self.view()[stem@].0 == o[i as int].exts);
                    assert forall|a: int, b: int| 0 <= a < b < n.len() implies #[trigger] n[a].stem@
                        != #[trigger] n[b].stem@ by {
                        assert(n[a].stem@ == o[a].stem@);
                        assert(n[b].stem@ == o[b].stem@);
                        assert(o[a].stem@ != o[b].stem@);
                    }
                    assert forall|k: Seq<char>| #[trigger] self.has(k) == (old_self.has(k) || k == stem@) by {
                        if old_self.has(k) {
                            let j = choose|j: int| 0 <= j < o.len() && #[trigger] o[j].stem@ == k;
                            assert(n[j].stem@ == k);
                        }
                        if self.has(k) {
                            let j = choose|j: int| 0 <= j < n.len() && #[trigger] n[j].stem@ == k;
                            if j != i {
                                assert(o[j].stem@ == k);
                            }
                        }
                    }
                    assert(self.view() =~= old_self.view().insert(stem@, (old_self.seen(stem@).with(e), now)));
                }
                return;
            }
            i = i + 1;
        }
        let ghost old_self = *self;
        self.events.push(PendingEvent { stem, exts: ExtSet::empty_set().add(e), last_seen: now });
        proof {
            let n = self.events@;
            assert(n =~= o.push(n[o.len() as int]));
            assert(!old_self.has(stem@));
            assert forall|a: int, b: int| 0 <= a < b < n.len() implies #[trigger] n[a].stem@
                != #[trigger] n[b].stem@ by {
                if b < o.len() {
                    assert(o[a].stem@ != o[b].stem@);
                }
            }
            assert forall|k: Seq<char>| #[trigger] self.has(k) == (old_self.has(k) || k == stem@) by {
                if old_self.has(k) {
                    let j = choose|j: int| 0 <= j < o.len() && #[trigger] o[j].stem@ == k;
                    assert(n[j].stem@ == k);
                }
                if k == stem@ {
                    assert(n[o.len() as int].stem@ == k);
                }
            }
            assert(self.view() =~= old_self.view().insert(stem@, (old_self.seen(stem@).with(e), now)));
        }
    }

    /// The debounce timer fired at `now`: every event quiet for the debounce
    /// interval leaves the pending set, and the stems of those with a `.cfg`
    /// file are returned, to be processed; the others stay, in their order.
    pub fn on_tick(&mut self, now: u128, debounce: u128) -> (ready: Vec<String>)
        requires
            old(self).wf(),
        ensures
            final(self).wf(),
            final(self).events@ == kept_events(old(self).events@, now, debounce),
            ready@.map_values(|s: String| s@) == ready_events(old(self).events@, now, debounce).map_values(|e: PendingEvent| e.stem@),
    {
        let ghost o = self.events@;
        let mut rest: Vec<PendingEvent> = Vec::new();
        std::mem::swap(&mut rest, &mut self.events);
        let mut ready: Vec<String> = Vec::new();
        let mut k: usize = 0;
        let n = rest.len();
        while k < n
            invariant
                n == o.len(),
                k <= n,
                rest@ == o.subrange(k as int, n as int),
                self.events@ == o.take(k as int).filter(|e: PendingEvent| !quiet_event(e, now, debounce)),
                ready@.map_values(|s: String| s@) == o.take(k as int).filter(|e: PendingEvent| ready_event(e, now, debounce)).map_values(|e: PendingEvent| e.stem@),
            decreases n - k,
        {
            let ev = rest.remove(0);
            assert(ev == o[k as int]);
            proof {
                reveal_with_fuel(Seq::filter, 1);
                assert(o.take(k + 1).drop_last() =~= o.take(k as int));
                assert(o.take(k + 1).last() == o[k as int]);
            }
            let quiet = if now >= ev.last_seen {
                now - ev.last_seen >= debounce
            } else {
                0 >= debounce
            };
            if quiet {
                if ev.exts.cfg {
                    let ghost r0 = ready@;
                    ready.push(ev.stem);
                    assert(ready@ == r0.push(o[k as int].stem));
                    assert(ready@.map_values(|s: String| s@) =~= r0.map_values(|s: String| s@).push(o[k as int].stem@));
                    assert(o.take(k + 1).filter(|e: PendingEvent| ready_event(e, now, debounce)) == o.take(k as int).filter(|e: PendingEvent| ready_event(e, now, debounce)).push(o[k as int]));
                    assert(o.take(k + 1).filter(|e: PendingEvent| ready_event(e, now, debounce)).map_values(|e: PendingEvent| e.stem@) =~= o.take(k as int).filter(|e: PendingEvent| ready_event(e, now, debounce)).map_values(|e: PendingEvent| e.stem@).push(o[k as int].stem@));
                }
            } else {
                self.events.push(ev);
            }
            k = k + 1;
        }
        assert(o.take(n as int) =~= o);
        proof {
            lemma_filter_keeps_distinct_stems(o, |e: PendingEvent| !quiet_event(e, now, debounce));
        }
        ready
    }
}

/// The event has been quiet for the debounce interval at `now`.
pub open spec fn quiet_event(e: PendingEvent, now: u128, debounce: u128) -> bool {
    is_quiet(now, e.last_seen, debounce)
}

/// The events that a tick at `now` hands on, in their order.
pub open spec fn ready_events(events: Seq<PendingEvent>, now: u128, debounce: u128) -> Seq<PendingEvent> {
    events.filter(|e: PendingEvent| ready_event(e, now, debounce))
}

/// The events that stay pending after a tick at `now`, in their order.
pub open spec fn kept_events(events: Seq<PendingEvent>, now: u128, debounce: u128) -> Seq<PendingEvent> {
    events.filter(|e: PendingEvent| !quiet_event(e, now, debounce))
}

/// The event is quiet and has its `.cfg` file: it is ready to be processed.
pub open spec fn ready_event(e: PendingEvent, now: u128, debounce: u128) -> bool {
    quiet_event(e, now, debounce) && e.exts.cfg
}

/// Filtering events whose stems are distinct keeps them distinct.
pub proof fn lemma_filter_keeps_distinct_stems(s: Seq<PendingEvent>, p: spec_fn(PendingEvent) -> bool)
    requires
        forall|i: int, j: int| 0 <= i < j < s.len() ==> #[trigger] s[i].stem@ != #[trigger] s[j].stem@,
    ensures
        forall|i: int, j: int| 0 <= i < j < s.filter(p).len() ==> #[trigger] s.filter(p)[i].stem@ != #[trigger] s.filter(p)[j].stem@,
    decreases s.len(),
{
    reveal_with_fuel(Seq::filter, 1);
    if s.len() > 0 {
        let t = s.drop_last();
        assert forall|i: int, j: int| 0 <= i < j < t.len() implies #[trigger] t[i].stem@ != #[trigger] t[j].stem@ by {
            assert(t[i] == s[i] && t[j] == s[j]);
        }
        lemma_filter_keeps_distinct_stems(t, p);
        if p(s.last()) {
            let f = t.filter(p);
            assert(s.filter(p) == f.push(s.last()));
            assert forall|i: int| 0 <= i < f.len() implies #[trigger] f[i].stem@ != s.last().stem@ by {
                assert(t.filter(p).contains(f[i]));
                t.lemma_filter_contains_rev(p, f[i]);
                let k = choose|k: int| 0 <= k < t.len() && t[k] == f[i];
                assert(s[k] == t[k]);
            }
            assert forall|i: int, j: int| 0 <= i < j < s.filter(p).len() implies #[trigger] s.filter(p)[i].stem@ != #[trigger] s.filter(p)[j].stem@ by {
                if j == f.len() {
                    assert(s.filter(p)[j] == s.last());
                    assert(s.filter(p)[i] == f[i]);
                } else {
                    assert(s.filter(p)[i] == f[i] && s.filter(p)[j] == f[j]);
                }
            }
        } else {
            assert(s.filter(p) == t.filter(p));
        }
    }
}

/// The COMTRADE extension that a lower-case extension text names.
pub fn classify_ext(e: &str) -> (r: Option<ComtradeExt>)
    ensures
        r == spec_ext(e@),
{
    proof {
        reveal_strlit("cfg");
        reveal_strlit("dat");
        reveal_strlit("hdr");
        reveal_strlit("inf");
    }
    if str_eq(e, "cfg") {
        assert("cfg"@ =~= seq!['c', 'f', 'g']);
        Some(ComtradeExt::Cfg)
    } else if str_eq(e, "dat") {
        assert("cfg"@ =~= seq!['c', 'f', 'g']);
        assert("dat"@ =~= seq!['d', 'a', 't']);
        Some(ComtradeExt::Dat)
    } else if str_eq(e, "hdr") {
        assert("cfg"@ =~= seq!['c', 'f', 'g']);
        assert("dat"@ =~= seq!['d', 'a', 't']);
        assert("hdr"@ =~= seq!['h', 'd', 'r']);
        Some(ComtradeExt::Hdr)
    } else if str_eq(e, "inf") {
        assert("cfg"@ =~= seq!['c', 'f', 'g']);
        assert("dat"@ =~= seq!['d', 'a', 't']);
        assert("hdr"@ =~= seq!['h', 'd', 'r']);
        assert("inf"@ =~= seq!['i', 'n', 'f']);
        Some(ComtradeExt::Inf)
    } else {
        assert("cfg"@ =~= seq!['c', 'f', 'g']);
        assert("dat"@ =~= seq!['d', 'a', 't']);
        assert("hdr"@ =~= seq!['h', 'd', 'r']);
        assert("inf"@ =~= seq!['i', 'n', 'f']);
        None
    }
}

impl ExtSet {
    /// No extension seen.
    pub fn empty_set() -> (r: ExtSet)
        ensures
            r == ExtSet::empty(),
    {
        ExtSet { cfg: false, dat: false, hdr: false, inf: false }
    }
}

/// A file found in the inbox when the watcher starts: its extension and
/// stem, where they are valid text.
pub struct InboxEntry {
    pub extension: Option<String>,
    pub stem: Option<String>,
}

/// The entry is a `.cfg` file (the extension compared exactly) with a stem.
pub open spec fn is_cfg_entry(e: InboxEntry) -> bool {
    &&& e.extension matches Some(x) && x@ == seq!['c', 'f', 'g']
    &&& e.stem is Some
}

/// Some string of `r` holds the text `k`.
pub open spec fn lists_text(r: Seq<String>, k: Seq<char>) -> bool {
    exists|i: int| 0 <= i < r.len() && #[trigger] r[i]@ == k
}

/// One of the first `n` entries is a `.cfg` file with stem `k`.
pub open spec fn has_cfg_stem(entries: Seq<InboxEntry>, n: int, k: Seq<char>) -> bool {
    exists|j: int| 0 <= j < n && is_cfg_entry(#[trigger] entries[j]) && entries[j].stem.unwrap()@ == k
}

/// The order in which an event's files are gathered.
pub open spec fn ext_order(i: int) -> ComtradeExt {
    if i == 0 {
        ComtradeExt::Cfg
    } else if i == 1 {
        ComtradeExt::Dat
    } else if i == 2 {
        ComtradeExt::Hdr
    } else {
        ComtradeExt::Inf
    }
}

impl InboxWatcher {
    /// A watcher for the agent's inbox that enqueues into `queue`.
    pub fn new(config: Arc<AgentConfig>, queue: Arc<LocalQueue>) -> (w: Self)
        ensures
            w.config == config,
            w.queue == queue,
    {
        InboxWatcher { config, queue }
    }

    /// The stems of the events already in the inbox at start-up: those of
    /// the `.cfg` files, each once.
    pub fn scan_stems(entries: &Vec<InboxEntry>) -> (r: Vec<String>)
        ensures
            forall|i: int, j: int| 0 <= i < j < r@.len() ==> #[trigger] r@[i]@ != #[trigger] r@[j]@,
            forall|k: Seq<char>| #[trigger] lists_text(r@, k) <==> has_cfg_stem(entries@, entries@.len() as int, k),
    {
        let mut r: Vec<String> = Vec::new();
        let mut j: usize = 0;
        while j < entries.len()
            invariant
                j <= entries.len(),
                forall|a: int, b: int| 0 <= a < b < r@.len() ==> #[trigger] r@[a]@ != #[trigger] r@[b]@,
                forall|k: Seq<char>| #[trigger] lists_text(r@, k) <==> has_cfg_stem(entries@, j as int, k),
            decreases entries.len() - j,
        {
            let e = &entries[j];
            let is_cfg = match &e.extension {
                Some(x) => {
                    let b = str_eq(x.as_str(), "cfg");
                    proof {
                        reveal_strlit("cfg");
                    }
                    assert("cfg"@ =~= seq!['c', 'f', 'g']);
                    b
                },
                None => false,
            };
            let ghost r0 = r@;
            assert(forall|k: Seq<char>| #[trigger] lists_text(r0, k) <==> has_cfg_stem(entries@, j as int, k));
            if is_cfg {
                match &e.stem {
                    Some(stem) => {
                        let mut found = false;
                        let mut a: usize = 0;
                        while a < r.len()
                            invariant
                                a <= r@.len(),
                                r@ == r0,
                                !found ==> forall|c: int| 0 <= c < a ==> r@[c]@ != stem@,
                                found ==> exists|c: int| 0 <= c < r@.len() && #[trigger] r@[c]@ == stem@,
                            decreases r@.len() - a,
                        {
                            if !found && str_eq(r[a].as_str(), stem.as_str()) {
                                found = true;
                            }
                            a = a + 1;
                        }
                        if !found {
                            r.push(stem.clone());
                            proof {
                                assert(r@ == r0.push(r@[r0.len() as int]));
                                assert forall|a: int, b: int| 0 <= a < b < r@.len() implies #[trigger] r@[a]@ != #[trigger] r@[b]@ by {
                                    if b < r0.len() {
                                        assert(r0[a]@ != r0[b]@);
                                    }
                                }
                            }
                        }
                        proof {
                            assert(is_cfg_entry(entries@[j as int]));
                            assert(entries@[j as int].stem.unwrap()@ == stem@);
                            assert forall|k: Seq<char>| #[trigger] lists_text(r@, k) <==> has_cfg_stem(entries@, j + 1, k) by {
                                if lists_text(r@, k) {
                                    let a = choose|a: int| 0 <= a < r@.len() && #[trigger] r@[a]@ == k;
                                    if a < r0.len() {
                                        assert(r0[a]@ == k);
                                        assert(lists_text(r0, k));
                                        assert(has_cfg_stem(entries@, j as int, k));
                                        let b = choose|b: int| 0 <= b < j && is_cfg_entry(#[trigger] entries@[b]) && entries@[b].stem.unwrap()@ == k;
                                        assert(0 <= b < j + 1);
                                    } else {
                                        assert(r@[a]@ == stem@);
                                    }
                                }
                                if has_cfg_stem(entries@, j + 1, k) {
                                    let b = choose|b: int| 0 <= b < j + 1 && is_cfg_entry(#[trigger] entries@[b])
                                        && entries@[b].stem.unwrap()@ == k;
                                    if b < j {
                                        assert(has_cfg_stem(entries@, j as int, k));
                                        assert(lists_text(r0, k));
                                        let a = choose|a: int| 0 <= a < r0.len() && #[trigger] r0[a]@ == k;
                                        assert(r@[a] == r0[a]);
                                    } else if !found {
                                        assert(r@[r0.len() as int]@ == k);
                                    } else {
                                        let c = choose|c: int| 0 <= c < r@.len() && #[trigger] r@[c]@ == stem@;
                                        assert(r@[c]@ == k);
                                    }
                                }
                            }
                        }
                    },
                    None => {},
                }
            }
            j = j + 1;
        }
        r
    }

    /// The inbox file names that an event's files may have: its stem with
    /// each COMTRADE extension, `.cfg` first, then `.dat`, `.hdr`, `.inf`.
    pub fn event_file_names(stem: &str) -> (r: Vec<String>)
        ensures
            r@.len() == 4,
            forall|i: int| 0 <= i < 4 ==> #[trigger] r@[i]@ == stem@ + seq!['.'] + ext_text(ext_order(i)),
    {
        let mut r: Vec<String> = Vec::new();
        r.push(file_name(stem, ComtradeExt::Cfg));
        r.push(file_name(stem, ComtradeExt::Dat));
        r.push(file_name(stem, ComtradeExt::Hdr));
        r.push(file_name(stem, ComtradeExt::Inf));
        r
    }
}

/// A stem with one extension.
fn file_name(stem: &str, e: ComtradeExt) -> (r: String)
    ensures
        r@ == stem@ + seq!['.'] + ext_text(e),
{
    let mut r = String::new();
    push_str(&mut r, stem);
    push_char(&mut r, '.');
    match e {
        ComtradeExt::Cfg => { push_char(&mut r, 'c'); push_char(&mut r, 'f'); push_char(&mut r, 'g'); },
        ComtradeExt::Dat => { push_char(&mut r, 'd'); push_char(&mut r, 'a'); push_char(&mut r, 't'); },
        ComtradeExt::Hdr => { push_char(&mut r, 'h'); push_char(&mut r, 'd'); push_char(&mut r, 'r'); },
        ComtradeExt::Inf => { push_char(&mut r, 'i'); push_char(&mut r, 'n'); push_char(&mut r, 'f'); },
    }
    assert(r@ =~= stem@ + seq!['.'] + ext_text(e));
    r
}

/// Every event that a tick hands on was quiet for the debounce interval and
/// had its `.cfg` file; every such event is handed on.
pub proof fn law_tick_hands_on_ready_events(events: Seq<PendingEvent>, now: u128, debounce: u128)
    ensures
        forall|i: int|
            0 <= i < ready_events(events, now, debounce).len() ==> ready_event(
                #[trigger] ready_events(events, now, debounce)[i],
                now,
                debounce,
            ),
        forall|i: int|
            0 <= i < events.len() && ready_event(#[trigger] events[i], now, debounce) ==> ready_events(events, now, debounce).contains(events[i]),
{
    broadcast use vstd::seq_lib::group_filter_ensures;
}

/// After a tick, no event that was quiet is still pending under its stem: a
/// quiet event is handed on (or dropped, without `.cfg`) exactly once.
pub proof fn law_tick_clears_quiet_stems(d: Debouncer, now: u128, debounce: u128, i: int)
    requires
        d.wf(),
        0 <= i < d.events@.len(),
        quiet_event(d.events@[i], now, debounce),
    ensures
        forall|j: int|
            0 <= j < kept_events(d.events@, now, debounce).len() ==> (
            #[trigger] kept_events(d.events@, now, debounce)[j]).stem@
                != d.events@[i].stem@,
{
    let p = |e: PendingEvent| !quiet_event(e, now, debounce);
    let f = d.events@.filter(p);
    assert forall|j: int| 0 <= j < f.len() implies (#[trigger] f[j]).stem@ != d.events@[i].stem@ by {
        broadcast use vstd::seq_lib::group_filter_ensures;
        assert(f.contains(f[j]));
        d.events@.lemma_filter_contains_rev(p, f[j]);
        let k = choose|k: int| 0 <= k < d.events@.len() && d.events@[k] == f[j];
        assert(p(f[j]));
        if k < i {
            assert(d.events@[k].stem@ != d.events@[i].stem@);
        } else if k > i {
            assert(d.events@[i].stem@ != d.events@[k].stem@);
        }
    }
}

/// Every event still pending after a tick was seen within the debounce interval.
pub proof fn law_tick_keeps_only_recent(events: Seq<PendingEvent>, now: u128, debounce: u128)
    ensures
        forall|j: int|
            0 <= j < kept_events(events, now, debounce).len() ==> !quiet_event(
                #[trigger] kept_events(events, now, debounce)[j],
                now,
                debounce,
            ),
{
    broadcast use vstd::seq_lib::group_filter_ensures;
}


/// Every COMTRADE extension is recognized as itself, and only its own text
/// is: a `.cfg`, `.dat`, `.hdr` or `.inf` file (lower-cased) always counts
/// for its stem, so each such write refreshes the stem's quiet time.
pub proof fn law_comtrade_extensions_recognized(e: ComtradeExt, t: Seq<char>)
    ensures
        spec_ext(ext_text(e)) == Some(e),
        spec_ext(t) == Some(e) ==> t == ext_text(e),
{
}

} // verus!
