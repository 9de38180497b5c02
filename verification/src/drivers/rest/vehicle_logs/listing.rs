use vstd::prelude::*;

use super::LogEntry;

verus! {

/// Most consecutive failed receives before listing gives up.
pub const LOG_MAX_RETRIES: u32 = 10;

/// A `LOG_ENTRY` message reduced to what the listing reads.
#[derive(Debug, Clone, Copy)]
pub struct LogEntryMessage {
    pub id: u16,
    pub num_logs: u16,
    pub time_utc: u32,
    pub size: u32,
}

/// What a received `LOG_ENTRY` means for the listing.
#[derive(Debug, Clone, Copy, PartialEq, Eq, Structural)]
pub enum ListingProgress {
    /// The vehicle has no logs.
    NoLogs,
    /// More entries are expected.
    Continue,
    /// Every announced entry arrived.
    Complete,
}

/// What to do after a receive timed out.
#[derive(Debug, Clone, Copy, PartialEq, Eq, Structural)]
pub enum TimeoutAction {
    /// Too many retries: stop and return what arrived.
    GiveUp,
    /// Ask again for the entries `start..=end`.
    Request { start: u16, end: u16 },
    /// Nothing to ask for.
    Wait,
}

/// The entries of a log listing, kept in increasing order of id, one per id.
pub struct LogListing {
    pub entries: Vec<LogEntry>,
    pub expected_count: Option<u16>,
    pub retries: u32,
}

/// The entry ids of a listing are strictly increasing.
pub open spec fn ids_increasing(entries: Seq<LogEntry>) -> bool {
    forall|i: int, j: int| 0 <= i < j < entries.len() ==> #[trigger] entries[i].id < #[trigger] entries[j].id
}

/// Whether the listing holds an entry with this id.
pub open spec fn has_id(entries: Seq<LogEntry>, id: u16) -> bool {
    exists|i: int| 0 <= i < entries.len() && #[trigger] entries[i].id == id
}

/// The listing as a map from id to the last entry received with that id.
pub open spec fn entries_map(entries: Seq<LogEntry>) -> Map<u16, LogEntry> {
    Map::new(|id: u16| has_id(entries, id), |id: u16| entries[choose|i: int| 0 <= i < entries.len() && #[trigger] entries[i].id == id])
}

impl LogListing {
    /// The entries are in increasing order of id.
    pub open spec fn wf(&self) -> bool {
        ids_increasing(self.entries@)
    }

    /// The listing as a map from id to entry.
    pub open spec fn view_map(&self) -> Map<u16, LogEntry> {
        entries_map(self.entries@)
    }

    /// An empty listing, before the request goes out.
    pub fn new() -> (l: Self)
        ensures
            l.wf(),
            l.entries@.len() == 0,
            l.expected_count is None,
            l.retries == 0,
    {
        LogListing { entries: Vec::new(), expected_count: None, retries: 0 }
    }

    /// Records an entry, replacing any earlier one with the same id.
    pub fn insert(&mut self, entry: LogEntry)
        requires
            old(self).wf(),
        ensures
            final(self).wf(),
            final(self).view_map() == old(self).view_map().insert(entry.id, entry),
            final(self).expected_count == old(self).expected_count,
            final(self).retries == old(self).retries,
    {
        let ghost old_entries = self.entries@;
        let mut i: usize = 0;
        while i < self.entries.len() && self.entries[i].id < entry.id
            invariant
                self.entries@ == old_entries,
                ids_increasing(old_entries),
                0 <= i <= old_entries.len(),
                forall|j: int| 0 <= j < i ==> #[trigger] old_entries[j].id < entry.id,
            decreases old_entries.len() - i,
        {
            i = i + 1;
        }
        if i < self.entries.len() && self.entries[i].id == entry.id {
            self.entries.set(i, entry);
            proof {
                let e = self.entries@;
                assert forall|id: u16| has_id(e, id) <==> has_id(old_entries, id) || id == entry.id by {
                    if has_id(old_entries, id) {
                        let k = choose|k: int| 0 <= k < old_entries.len() && #[trigger] old_entries[k].id == id;
                        assert(e[k].id == id);
                    }
                    if has_id(e, id) {
                        let k = choose|k: int| 0 <= k < e.len() && #[trigger] e[k].id == id;
                        if k != i {
                            assert(old_entries[k].id == id);
                        }
                    }
                    if id == entry.id {
                        assert(e[i as int].id == id);
                    }
                }
                lemma_unique_index(e, entry.id, i as int);
                assert forall|id: u16| has_id(old_entries, id) && id != entry.id implies
                    #[trigger] entries_map(e)[id] == entries_map(old_entries)[id] by {
                    let k = choose|k: int| 0 <= k < old_entries.len() && #[trigger] old_entries[k].id == id;
                    lemma_unique_index(old_entries, id, k);
                    assert(e[k].id == id);
                    lemma_unique_index(e, id, k);
                }
                assert(entries_map(e) =~= entries_map(old_entries).insert(entry.id, entry));
            }
        } else {
            self.entries.insert(i, entry);
            proof {
                let e = self.entries@;
                assert forall|a: int, b: int| 0 <= a < b < e.len() implies #[trigger] e[a].id < #[trigger] e[b].id by {
                    if a < i && b > i {
                        assert(old_entries[b - 1].id > entry.id || old_entries[b - 1].id >= old_entries[i as int].id);
                    }
                }
                assert forall|id: u16| has_id(e, id) <==> has_id(old_entries, id) || id == entry.id by {
                    if has_id(old_entries, id) {
                        let k = choose|k: int| 0 <= k < old_entries.len() && #[trigger] old_entries[k].id == id;
                        if k < i {
                            assert(e[k].id == id);
                        } else {
                            assert(e[k + 1].id == id);
                        }
                    }
                    if has_id(e, id) {
                        let k = choose|k: int| 0 <= k < e.len() && #[trigger] e[k].id == id;
                        if k < i {
                            assert(old_entries[k].id == id);
                        } else if k > i {
                            assert(old_entries[k - 1].id == id);
                        }
                    }
                    if id == entry.id {
                        assert(e[i as int].id == id);
                    }
                }
                lemma_unique_index(e, entry.id, i as int);
                assert forall|id: u16| has_id(old_entries, id) && id != entry.id implies
                    #[trigger] entries_map(e)[id] == entries_map(old_entries)[id] by {
                    let k = choose|k: int| 0 <= k < old_entries.len() && #[trigger] old_entries[k].id == id;
                    lemma_unique_index(old_entries, id, k);
                    let k2 = if k < i { k } else { k + 1 };
                    assert(e[k2].id == id);
                    lemma_unique_index(e, id, k2);
                }
                assert(entries_map(e) =~= entries_map(old_entries).insert(entry.id, entry));
            }
        }
    }

    /// Applies a received `LOG_ENTRY`: a vehicle without logs ends the listing with nothing;
    /// otherwise the entry is recorded and the listing is complete once it holds as many
    /// entries as the vehicle announced (the count taken modulo 65536, as a `u16`).
    pub fn on_entry(&mut self, msg: LogEntryMessage) -> (p: ListingProgress)
        requires
            old(self).wf(),
        ensures
            final(self).wf(),
            final(self).retries == 0,
            msg.num_logs == 0 ==> p == ListingProgress::NoLogs && final(self).view_map() == old(self).view_map()
                && final(self).expected_count == old(self).expected_count,
            msg.num_logs != 0 ==> {
                &&& final(self).expected_count == Some(msg.num_logs)
                &&& final(self).view_map() == old(self).view_map().insert(msg.id, LogEntry { id: msg.id, time_utc: msg.time_utc, size: msg.size })
                &&& p == if (final(self).entries@.len() as u16) >= msg.num_logs { ListingProgress::Complete } else { ListingProgress::Continue }
            },
    {
        self.retries = 0;
        if msg.num_logs == 0 {
            return ListingProgress::NoLogs;
        }
        self.expected_count = Some(msg.num_logs);
        self.insert(LogEntry { id: msg.id, time_utc: msg.time_utc, size: msg.size });
        if (self.entries.len() as u16) >= msg.num_logs {
            ListingProgress::Complete
        } else {
            ListingProgress::Continue
        }
    }

    /// The smallest id below `count` that has no entry yet.
    pub fn first_missing_id(&self, count: u16) -> (r: Option<u16>)
        requires
            self.wf(),
        ensures
            r matches Some(id) ==> id < count && !has_id(self.entries@, id)
                && forall|j: u16| j < id ==> has_id(self.entries@, j),
            r is None ==> forall|j: u16| j < count ==> has_id(self.entries@, j),
    {
        let mut id: u16 = 0;
        while id < count
            invariant
                forall|j: u16| j < id ==> has_id(self.entries@, j),
            decreases count - id,
        {
            let mut k: usize = 0;
            let mut found = false;
            while k < self.entries.len()
                invariant
                    0 <= k <= self.entries@.len(),
                    found == exists|m: int| 0 <= m < k && #[trigger] self.entries@[m].id == id,
                decreases self.entries@.len() - k,
            {
                if self.entries[k].id == id {
                    found = true;
                }
                k = k + 1;
            }
            if !found {
                return Some(id);
            }
            id = id + 1;
        }
        None
    }

    /// Decides what to do after a receive timed out: give up after too many retries; else ask
    /// again for the first missing entry once the count is known, or for all entries before.
    pub fn on_timeout(&mut self) -> (a: TimeoutAction)
        requires
            old(self).wf(),
            old(self).retries < u32::MAX,
        ensures
            final(self).wf(),
            final(self).entries@ == old(self).entries@,
            final(self).expected_count == old(self).expected_count,
            final(self).retries == old(self).retries + 1,
            final(self).retries > LOG_MAX_RETRIES ==> a == TimeoutAction::GiveUp,
            final(self).retries <= LOG_MAX_RETRIES && old(self).expected_count is None ==> (a matches TimeoutAction::Request { start, end } && start == 0 && end == 0xFFFF),
            final(self).retries <= LOG_MAX_RETRIES && (old(self).expected_count is Some) && (a is Request) ==> a->start == a->end && a->start < old(self).expected_count->0
                && !has_id(old(self).entries@, a->start) && forall|j: u16| j < a->start ==> has_id(old(self).entries@, j),
            final(self).retries <= LOG_MAX_RETRIES && (old(self).expected_count is Some) ==> !(a is GiveUp),
            final(self).retries <= LOG_MAX_RETRIES && (old(self).expected_count is Some) && (a is Wait) ==> forall|j: u16| j < old(self).expected_count->0 ==> has_id(old(self).entries@, j),
    {
        self.retries = self.retries + 1;
        if self.retries > LOG_MAX_RETRIES {
            return TimeoutAction::GiveUp;
        }
        match self.expected_count {
            None => {
                let a = TimeoutAction::Request { start: 0, end: 0xFFFF };
                assert(!(a is Wait));
                assert(old(self).expected_count is None);
                a
            },
            Some(count) => match self.first_missing_id(count) {
                Some(id) => TimeoutAction::Request { start: id, end: id },
                None => TimeoutAction::Wait,
            },
        }
    }

    /// Counts a failed receive; returns whether the listing must fail.
    pub fn on_error(&mut self) -> (fail: bool)
        requires
            old(self).retries < u32::MAX,
        ensures
            final(self).entries@ == old(self).entries@,
            final(self).expected_count == old(self).expected_count,
            final(self).retries == old(self).retries + 1,
            fail == (final(self).retries > LOG_MAX_RETRIES),
    {
        self.retries = self.retries + 1;
        self.retries > LOG_MAX_RETRIES
    }

    /// The entries received, in increasing order of id.
    pub fn into_logs(self) -> (logs: Vec<LogEntry>)
        requires
            self.wf(),
        ensures
            ids_increasing(logs@),
            entries_map(logs@) == self.view_map(),
            logs@ == self.entries@,
    {
        self.entries
    }
}

/// The listing entry a `LOG_ENTRY` message stands for.
pub open spec fn entry_of(m: LogEntryMessage) -> LogEntry {
    LogEntry { id: m.id, time_utc: m.time_utc, size: m.size }
}

/// The entries a run of `LOG_ENTRY` messages leaves, by id: each message records its entry
/// over any earlier one with the same id.
pub open spec fn spec_listing_map(msgs: Seq<LogEntryMessage>) -> Map<u16, LogEntry>
    decreases msgs.len(),
{
    if msgs.len() == 0 {
        Map::empty()
    } else {
        spec_listing_map(msgs.drop_last()).insert(msgs.last().id, entry_of(msgs.last()))
    }
}

/// A whole listing run: when every message of a run announces logs and each one is recorded
/// as [`LogListing::on_entry`] records it, starting from an empty listing, the listing holds
/// exactly the ids that were received, each with the entry of the last message that carried
/// it.
pub proof fn lemma_listing_run(msgs: Seq<LogEntryMessage>, maps: Seq<Map<u16, LogEntry>>)
    requires
        maps.len() == msgs.len() + 1,
        maps[0] == Map::<u16, LogEntry>::empty(),
        forall|k: int| 0 <= k < msgs.len() ==> (#[trigger] msgs[k]).num_logs != 0
            && maps[k + 1] == maps[k].insert(msgs[k].id, entry_of(msgs[k])),
    ensures
        maps.last() == spec_listing_map(msgs),
        forall|id: u16| #[trigger] maps.last().dom().contains(id) <==> exists|i: int| 0 <= i < msgs.len() && (#[trigger] msgs[i]).id == id,
        forall|i: int| 0 <= i < msgs.len() && (forall|j: int| i < j < msgs.len() ==> (#[trigger] msgs[j]).id != msgs[i].id)
            ==> maps.last()[(#[trigger] msgs[i]).id] == entry_of(msgs[i]),
    decreases msgs.len(),
{
    if msgs.len() > 0 {
        let n = msgs.len() - 1;
        let d = msgs.drop_last();
        let dm = maps.drop_last();
        assert forall|k: int| 0 <= k < d.len() implies (#[trigger] d[k]).num_logs != 0
            && dm[k + 1] == dm[k].insert(d[k].id, entry_of(d[k])) by {
            assert(d[k] == msgs[k]);
        }
        lemma_listing_run(d, dm);
        assert(maps[n + 1] == maps[n].insert(msgs[n].id, entry_of(msgs[n])));
        assert forall|id: u16| #[trigger] maps.last().dom().contains(id) <==> exists|i: int| 0 <= i < msgs.len() && (#[trigger] msgs[i]).id == id by {
            if maps.last().dom().contains(id) && id != msgs[n].id {
                assert(dm.last().dom().contains(id));
                let i = choose|i: int| 0 <= i < d.len() && (#[trigger] d[i]).id == id;
                assert(msgs[i].id == id);
            }
            if exists|i: int| 0 <= i < msgs.len() && (#[trigger] msgs[i]).id == id {
                let i = choose|i: int| 0 <= i < msgs.len() && (#[trigger] msgs[i]).id == id;
                if i < n {
                    assert(d[i].id == id);
                }
            }
        }
        assert forall|i: int| 0 <= i < msgs.len() && (forall|j: int| i < j < msgs.len() ==> (#[trigger] msgs[j]).id != msgs[i].id)
            implies maps.last()[(#[trigger] msgs[i]).id] == entry_of(msgs[i]) by {
            if i < n {
                assert(msgs[n].id != msgs[i].id);
                assert forall|j: int| i < j < d.len() implies (#[trigger] d[j]).id != d[i].id by {
                    assert(d[j] == msgs[j]);
                }
                assert(d[i] == msgs[i]);
            }
        }
    }
}

/// In a listing with increasing ids, an id appears at one index only.
pub proof fn lemma_unique_index(entries: Seq<LogEntry>, id: u16, k: int)
    requires
        ids_increasing(entries),
        0 <= k < entries.len(),
        entries[k].id == id,
    ensures
        (choose|i: int| 0 <= i < entries.len() && #[trigger] entries[i].id == id) == k,
        entries_map(entries)[id] == entries[k],
{
    let c = choose|i: int| 0 <= i < entries.len() && #[trigger] entries[i].id == id;
    assert(0 <= c < entries.len() && entries[c].id == id);
    if c < k {
        assert(entries[c].id < entries[k].id);
    } else if c > k {
        assert(entries[k].id < entries[c].id);
    }
}

} // verus!
