//! A bounded, time-windowed history of resource snapshots per server.

use vstd::prelude::*;
use vstd::string::StringExecFns;
use crate::events::Stats;
use crate::keyed::{distinct, index_of, lemma_index_of, lemma_index_of_own, lemma_index_of_prefix, lemma_index_of_remove};
use crate::rate_limiter::current_time_ms;

verus! {

/// Length of the history window, in milliseconds (three minutes).
pub const BUFFER_DURATION_MS: u64 = 180000;

/// Largest number of entries kept per server.
pub const MAX_BUFFER_SIZE: usize = 180;

/// A snapshot with the time it was taken, in milliseconds since the epoch.
#[derive(Debug, Clone, Copy, PartialEq, Eq, Structural)]
pub struct StatsEntry {
    pub stats: Stats,
    pub timestamp: u64,
}

/// The history of one server.
pub struct ServerHistory {
    pub uuid: String,
    pub entries: Vec<StatsEntry>,
}

/// The start of the window that ends at `now`.
pub open spec fn cutoff_at(now: u64) -> u64 {
    if now >= 180000 {
        (now - 180000) as u64
    } else {
        0
    }
}

/// The entries not older than `cutoff`, in order.
pub open spec fn fresh(entries: Seq<StatsEntry>, cutoff: u64) -> Seq<StatsEntry>
    decreases entries.len(),
{
    if entries.len() == 0 {
        Seq::empty()
    } else if entries.last().timestamp >= cutoff {
        fresh(entries.drop_last(), cutoff).push(entries.last())
    } else {
        fresh(entries.drop_last(), cutoff)
    }
}

/// The last `n` entries, or all of them when there are fewer.
pub open spec fn newest(entries: Seq<StatsEntry>, n: int) -> Seq<StatsEntry> {
    if entries.len() > n {
        entries.subrange(entries.len() - n, entries.len() as int)
    } else {
        entries
    }
}

/// The history after a snapshot is pushed at `now`: the entry is appended,
/// entries older than the window leave, and the oldest leave beyond the cap.
pub open spec fn pushed(entries: Seq<StatsEntry>, stats: Stats, now: u64) -> Seq<StatsEntry> {
    newest(fresh(entries.push(StatsEntry { stats, timestamp: now }), cutoff_at(now)), 180)
}

/// Every entry that `fresh` keeps is within the window.
pub proof fn lemma_fresh_within(entries: Seq<StatsEntry>, cutoff: u64)
    ensures
        forall|i: int|
            0 <= i < fresh(entries, cutoff).len() ==> (#[trigger] fresh(
                entries,
                cutoff,
            )[i]).timestamp >= cutoff,
        fresh(entries, cutoff).len() <= entries.len(),
    decreases entries.len(),
{
    if entries.len() > 0 {
        lemma_fresh_within(entries.drop_last(), cutoff);
    }
}

/// After a push at `now` the newest entry is the one just pushed, at most
/// 180 entries are held, and each of them lies in the window ending at `now`.
pub proof fn lemma_pushed_last(entries: Seq<StatsEntry>, stats: Stats, now: u64)
    ensures
        pushed(entries, stats, now).len() >= 1,
        pushed(entries, stats, now).last() == (StatsEntry { stats, timestamp: now }),
        pushed(entries, stats, now).len() <= 180,
        forall|i: int|
            0 <= i < pushed(entries, stats, now).len() ==> (#[trigger] pushed(
                entries,
                stats,
                now,
            )[i]).timestamp >= cutoff_at(now),
{
    let e = StatsEntry { stats, timestamp: now };
    let all = entries.push(e);
    assert(all.drop_last() =~= entries);
    lemma_fresh_within(all, cutoff_at(now));
}

/// The key under which an external sorted store keeps the history of a
/// server: `stats:{uuid}`. Entries are scored by their timestamp.
pub fn stats_key(server_uuid: &str) -> (key: String)
    ensures
        key@ == "stats:"@ + server_uuid@,
{
    let mut key = String::from_str("stats:");
    key.append(server_uuid);
    key
}

/// The lowest score still within the window that ends at `now`.
pub fn window_cutoff(now: u64) -> (c: u64)
    ensures
        c == cutoff_at(now),
{
    window_start(now)
}

fn keep_fresh(entries: &Vec<StatsEntry>, cutoff: u64) -> (out: Vec<StatsEntry>)
    ensures
        out@ == fresh(entries@, cutoff),
{
    let mut out: Vec<StatsEntry> = Vec::new();
    let mut i: usize = 0;
    assert(entries@.subrange(0, 0) =~= Seq::<StatsEntry>::empty());
    while i < entries.len()
        invariant
            i <= entries@.len(),
            out@ == fresh(entries@.subrange(0, i as int), cutoff),
        decreases entries@.len() - i,
    {
        let e: StatsEntry = entries[i];
        proof {
            let next = entries@.subrange(0, i + 1);
            assert(next.drop_last() =~= entries@.subrange(0, i as int));
            assert(next.last() == e);
        }
        if e.timestamp >= cutoff {
            out.push(e);
        }
        i = i + 1;
    }
    assert(entries@.subrange(0, entries@.len() as int) =~= entries@);
    out
}

fn keep_newest(entries: Vec<StatsEntry>, n: usize) -> (out: Vec<StatsEntry>)
    ensures
        out@ == newest(entries@, n as int),
{
    if entries.len() <= n {
        return entries;
    }
    let start: usize = entries.len() - n;
    let mut out: Vec<StatsEntry> = Vec::new();
    let mut i: usize = start;
    while i < entries.len()
        invariant
            start <= i <= entries@.len(),
            out@ == entries@.subrange(start as int, i as int),
        decreases entries@.len() - i,
    {
        out.push(entries[i]);
        i = i + 1;
        assert(out@ =~= entries@.subrange(start as int, i as int));
    }
    out
}

fn window_start(now: u64) -> (c: u64)
    ensures
        c == cutoff_at(now),
{
    if now >= BUFFER_DURATION_MS {
        now - BUFFER_DURATION_MS
    } else {
        0
    }
}

/// Recent resource snapshots of every server, held in memory.
pub struct StatsBuffer {
    buffers: Vec<ServerHistory>,
}

impl StatsBuffer {
    /// The server ids that have a history, in table order.
    pub closed spec fn keys(&self) -> Seq<Seq<char>> {
        Seq::new(self.buffers@.len(), |i: int| self.buffers@[i].uuid@)
    }

    /// No server has two histories.
    pub closed spec fn wf(&self) -> bool {
        distinct(self.keys())
    }

    /// The entries held for a server, oldest first; empty for an unknown server.
    pub closed spec fn history(&self, uuid: Seq<char>) -> Seq<StatsEntry> {
        match index_of(self.keys(), uuid) {
            Some(i) => self.buffers@[i].entries@,
            None => Seq::empty(),
        }
    }

    /// An empty buffer.
    pub fn new() -> (b: Self)
        ensures
            b.wf(),
            forall|uuid: Seq<char>| b.history(uuid).len() == 0,
    {
        let b = StatsBuffer { buffers: Vec::new() };
        assert(b.keys() =~= Seq::<Seq<char>>::empty());
        b
    }

    fn find(&self, uuid: &str) -> (r: Option<usize>)
        ensures
            match r {
                Some(i) => index_of(self.keys(), uuid@) == Some(i as int) && i < self.buffers@.len(),
                None => index_of(self.keys(), uuid@).is_none(),
            },
    {
        let mut i: usize = 0;
        let wanted: String = uuid.to_owned();
        let ghost keys = self.keys();
        assert(keys.subrange(0, 0) =~= Seq::<Seq<char>>::empty());
        while i < self.buffers.len()
            invariant
                i <= self.buffers@.len(),
                keys == self.keys(),
                keys.len() == self.buffers@.len(),
                wanted@ == uuid@,
                index_of(keys.subrange(0, i as int), uuid@).is_none(),
            decreases self.buffers@.len() - i,
        {
            proof {
                let next = keys.subrange(0, i + 1);
                assert(next.drop_last() =~= keys.subrange(0, i as int));
                assert(next.last() == self.buffers@[i as int].uuid@);
            }
            if self.buffers[i].uuid == wanted {
                proof {
                    lemma_index_of_prefix(keys, i + 1, uuid@);
                }
                return Some(i);
            }
            i = i + 1;
        }
        assert(keys.subrange(0, keys.len() as int) =~= keys);
        None
    }

    /// Pushes a snapshot taken at `now` for a server.
    pub fn push_at(&mut self, server_uuid: &str, stats: Stats, now: u64)
        requires
            old(self).wf(),
        ensures
            final(self).wf(),
            final(self).history(server_uuid@) == pushed(old(self).history(server_uuid@), stats, now),
            forall|other: Seq<char>|
                other != server_uuid@ ==> final(self).history(other) == old(self).history(other),
    {
        let entry = StatsEntry { stats, timestamp: now };
        let ghost old_keys = self.keys();
        match self.find(server_uuid) {
            Some(i) => {
                let slot = self.buffers.remove(i);
                let mut entries = slot.entries;
                entries.push(entry);
                let kept = keep_newest(keep_fresh(&entries, window_start(now)), MAX_BUFFER_SIZE);
                self.buffers.insert(i, ServerHistory { uuid: slot.uuid, entries: kept });
                proof {
                    assert(self.keys() =~= old_keys);
                    lemma_index_of(old_keys, server_uuid@);
                    assert forall|other: Seq<char>| other != server_uuid@ implies self.history(other)
                        == old(self).history(other) by {
                        lemma_index_of(old_keys, other);
                    }
                }
            },
            None => {
                let mut entries: Vec<StatsEntry> = Vec::new();
                entries.push(entry);
                let kept = keep_newest(keep_fresh(&entries, window_start(now)), MAX_BUFFER_SIZE);
                self.buffers.push(ServerHistory { uuid: server_uuid.to_owned(), entries: kept });
                proof {
                    assert(self.keys() =~= old_keys.push(server_uuid@));
                    assert(self.keys().drop_last() =~= old_keys);
                    lemma_index_of(old_keys, server_uuid@);
                    assert(entries@ =~= Seq::<StatsEntry>::empty().push(entry));
                    assert forall|other: Seq<char>| other != server_uuid@ implies self.history(other)
                        == old(self).history(other) by {
                        lemma_index_of(old_keys, other);
                    }
                }
            },
        }
    }

    /// Pushes a snapshot stamped with the current wall-clock time. Whatever
    /// the clock says, the snapshot becomes the newest entry of the server and
    /// no other server's history changes.
    pub fn push(&mut self, server_uuid: &str, stats: Stats)
        requires
            old(self).wf(),
        ensures
            final(self).wf(),
            exists|now: u64|
                final(self).history(server_uuid@) == #[trigger] pushed(
                    old(self).history(server_uuid@),
                    stats,
                    now,
                ),
            final(self).history(server_uuid@).len() >= 1,
            final(self).history(server_uuid@).len() <= 180,
            final(self).history(server_uuid@).last().stats == stats,
            forall|other: Seq<char>|
                other != server_uuid@ ==> final(self).history(other) == old(self).history(other),
    {
        let now: u64 = current_time_ms();
        proof {
            lemma_pushed_last(self.history(server_uuid@), stats, now);
        }
        self.push_at(server_uuid, stats, now);
        assert(self.history(server_uuid@) == pushed(old(self).history(server_uuid@), stats, now));
    }

    /// The entries of a server that lie in the window ending at `now`.
    /// Entries that left the window are evicted.
    pub fn get_history_at(&mut self, server_uuid: &str, now: u64) -> (r: Vec<StatsEntry>)
        requires
            old(self).wf(),
        ensures
            final(self).wf(),
            r@ == fresh(old(self).history(server_uuid@), cutoff_at(now)),
            final(self).history(server_uuid@) == r@,
            forall|i: int| 0 <= i < r@.len() ==> (#[trigger] r@[i]).timestamp >= cutoff_at(now),
            forall|other: Seq<char>|
                other != server_uuid@ ==> final(self).history(other) == old(self).history(other),
    {
        let ghost old_keys = self.keys();
        proof {
            lemma_fresh_within(self.history(server_uuid@), cutoff_at(now));
        }
        match self.find(server_uuid) {
            Some(i) => {
                let slot = self.buffers.remove(i);
                let kept = keep_fresh(&slot.entries, window_start(now));
                let result = keep_fresh(&slot.entries, window_start(now));
                self.buffers.insert(i, ServerHistory { uuid: slot.uuid, entries: kept });
                proof {
                    assert(self.keys() =~= old_keys);
                    assert forall|other: Seq<char>| other != server_uuid@ implies self.history(other)
                        == old(self).history(other) by {
                        lemma_index_of(old_keys, other);
                        lemma_index_of(old_keys, server_uuid@);
                    }
                }
                result
            },
            None => Vec::new(),
        }
    }

    /// The entries of a server within the window ending now.
    pub fn get_history(&mut self, server_uuid: &str) -> (r: Vec<StatsEntry>)
        requires
            old(self).wf(),
        ensures
            final(self).wf(),
            exists|now: u64|
                r@ == #[trigger] fresh(old(self).history(server_uuid@), cutoff_at(now)),
            final(self).history(server_uuid@) == r@,
            r@.len() <= old(self).history(server_uuid@).len(),
            forall|other: Seq<char>|
                other != server_uuid@ ==> final(self).history(other) == old(self).history(other),
    {
        let now: u64 = current_time_ms();
        proof {
            lemma_fresh_within(self.history(server_uuid@), cutoff_at(now));
        }
        let r = self.get_history_at(server_uuid, now);
        assert(r@ == fresh(old(self).history(server_uuid@), cutoff_at(now)));
        r
    }

    /// The most recent entry of a server.
    pub fn get_latest(&self, server_uuid: &str) -> (r: Option<StatsEntry>)
        ensures
            r == if self.history(server_uuid@).len() > 0 {
                Some(self.history(server_uuid@).last())
            } else {
                None
            },
    {
        match self.find(server_uuid) {
            Some(i) => {
                let entries = &self.buffers[i].entries;
                if entries.len() > 0 {
                    Some(entries[entries.len() - 1])
                } else {
                    None
                }
            },
            None => None,
        }
    }

    /// Forgets the history of a server.
    pub fn clear(&mut self, server_uuid: &str)
        requires
            old(self).wf(),
        ensures
            final(self).wf(),
            final(self).history(server_uuid@).len() == 0,
            forall|other: Seq<char>|
                other != server_uuid@ ==> final(self).history(other) == old(self).history(other),
    {
        let ghost old_keys = self.keys();
        match self.find(server_uuid) {
            Some(i) => {
                self.buffers.remove(i);
                proof {
                    assert(self.keys() =~= old_keys.remove(i as int));
                    lemma_index_of(old_keys, server_uuid@);
                    lemma_index_of_remove(old_keys, i as int, server_uuid@);
                    assert forall|other: Seq<char>| other != server_uuid@ implies self.history(other)
                        == old(self).history(other) by {
                        lemma_index_of_remove(old_keys, i as int, other);
                        lemma_index_of(old_keys, other);
                    }
                }
            },
            None => {},
        }
    }
}

impl Default for StatsBuffer {
    fn default() -> (b: Self)
        ensures
            b.wf(),
    {
        StatsBuffer::new()
    }
}

} // verus!
