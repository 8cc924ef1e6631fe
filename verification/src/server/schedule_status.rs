//! Live execution status of the schedules of a server.

use vstd::prelude::*;
use vstd::string::StringExecFns;
use crate::keyed::{distinct, index_of, lemma_index_of, lemma_index_of_prefix};
use crate::rate_limiter::current_time_ms;

verus! {

/// The status of one schedule.
#[derive(Debug, Clone)]
pub struct ScheduleStatus {
    pub id: String,
    pub name: String,
    pub is_executing: bool,
    pub executing_task_index: Option<usize>,
    pub last_execution_time: Option<u64>,
    pub next_execution_time: Option<u64>,
    pub enabled: bool,
    pub last_result: Option<String>,
}

/// A status stored under a schedule id.
pub struct TrackedStatus {
    pub key: String,
    pub status: ScheduleStatus,
}

/// The text recorded as the result of a run.
pub open spec fn result_text(successful: bool) -> Seq<char> {
    if successful {
        "success"@
    } else {
        "failed"@
    }
}

/// The whole seconds in a number of milliseconds.
pub open spec fn whole_seconds(ms: u64) -> u64 {
    ms / 1000
}

/// Seconds since the Unix epoch on the wall clock: the whole seconds of the
/// clock's reading in milliseconds.
pub fn current_timestamp() -> (secs: u64)
    ensures
        exists|ms: u64| secs == whole_seconds(ms),
{
    let ms: u64 = current_time_ms();
    let secs: u64 = ms / 1000;
    assert(secs == whole_seconds(ms));
    secs
}

/// Tracks the execution status of schedules.
pub struct ScheduleStatusTracker {
    statuses: Vec<TrackedStatus>,
}

impl ScheduleStatusTracker {
    /// The schedule ids tracked, in table order.
    pub closed spec fn keys(&self) -> Seq<Seq<char>> {
        Seq::new(self.statuses@.len(), |i: int| self.statuses@[i].key@)
    }

    /// No schedule is tracked twice.
    pub closed spec fn wf(&self) -> bool {
        distinct(self.keys())
    }

    /// The number of schedules tracked.
    pub closed spec fn len(&self) -> nat {
        self.statuses@.len()
    }

    /// The status stored for a schedule id.
    pub closed spec fn status(&self, id: Seq<char>) -> Option<ScheduleStatus> {
        match index_of(self.keys(), id) {
            Some(i) => Some(self.statuses@[i].status),
            None => None,
        }
    }

    /// A tracker with no schedule.
    pub fn new() -> (t: Self)
        ensures
            t.wf(),
            t.len() == 0,
            forall|id: Seq<char>| t.status(id).is_none(),
    {
        let t = ScheduleStatusTracker { statuses: Vec::new() };
        assert(t.keys() =~= Seq::<Seq<char>>::empty());
        t
    }

    fn find(&self, id: &str) -> (r: Option<usize>)
        ensures
            match r {
                Some(i) => index_of(self.keys(), id@) == Some(i as int) && i < self.statuses@.len(),
                None => index_of(self.keys(), id@).is_none(),
            },
    {
        let mut i: usize = 0;
        let wanted: String = id.to_owned();
        let ghost keys = self.keys();
        assert(keys.subrange(0, 0) =~= Seq::<Seq<char>>::empty());
        while i < self.statuses.len()
            invariant
                i <= self.statuses@.len(),
                keys == self.keys(),
                keys.len() == self.statuses@.len(),
                wanted@ == id@,
                index_of(keys.subrange(0, i as int), id@).is_none(),
            decreases self.statuses@.len() - i,
        {
            proof {
                let next = keys.subrange(0, i + 1);
                assert(next.drop_last() =~= keys.subrange(0, i as int));
                assert(next.last() == self.statuses@[i as int].key@);
            }
            if self.statuses[i].key == wanted {
                proof {
                    lemma_index_of_prefix(keys, i + 1, id@);
                }
                return Some(i);
            }
            i = i + 1;
        }
        assert(keys.subrange(0, keys.len() as int) =~= keys);
        None
    }

    fn replace(&mut self, i: usize, key: String, status: ScheduleStatus)
        requires
            old(self).wf(),
            i < old(self).statuses@.len(),
            key@ == old(self).statuses@[i as int].key@,
        ensures
            final(self).wf(),
            final(self).len() == old(self).len(),
            final(self).status(key@) == Some(status),
            forall|other: Seq<char>|
                other != key@ ==> final(self).status(other) == old(self).status(other),
    {
        let ghost keys0 = self.keys();
        self.statuses.remove(i);
        self.statuses.insert(i, TrackedStatus { key, status });
        proof {
            assert(self.keys() =~= keys0);
            crate::keyed::lemma_index_of_own(keys0, i as int);
            assert forall|other: Seq<char>| other != key@ implies self.status(other) == old(self).status(other) by {
                lemma_index_of(keys0, other);
            }
        }
    }

    /// Stores the status of a schedule, replacing what was stored for it.
    pub fn update_status(&mut self, schedule_id: String, status: ScheduleStatus)
        requires
            old(self).wf(),
        ensures
            final(self).wf(),
            final(self).status(schedule_id@) == Some(status),
            forall|other: Seq<char>|
                other != schedule_id@ ==> final(self).status(other) == old(self).status(other),
    {
        let ghost keys0 = self.keys();
        match self.find(schedule_id.as_str()) {
            Some(i) => {
                proof {
                    lemma_index_of(keys0, schedule_id@);
                }
                self.replace(i, schedule_id, status);
            },
            None => {
                self.statuses.push(TrackedStatus { key: schedule_id, status });
                proof {
                    lemma_index_of(keys0, schedule_id@);
                    assert(self.keys() =~= keys0.push(schedule_id@));
                    assert(self.keys().drop_last() =~= keys0);
                    assert forall|other: Seq<char>| other != schedule_id@ implies self.status(other)
                        == old(self).status(other) by {
                        lemma_index_of(keys0, other);
                    }
                }
            },
        }
    }

    /// Marks a tracked schedule as executing task `task_index` since `now`
    /// (seconds). An untracked schedule is left untracked.
    pub fn set_executing_at(&mut self, schedule_id: &str, task_index: usize, now: u64)
        requires
            old(self).wf(),
        ensures
            final(self).wf(),
            forall|other: Seq<char>|
                other != schedule_id@ ==> final(self).status(other) == old(self).status(other),
            match old(self).status(schedule_id@) {
                Some(s) => final(self).status(schedule_id@) == Some(
                    ScheduleStatus {
                        is_executing: true,
                        executing_task_index: Some(task_index),
                        last_execution_time: Some(now),
                        ..s
                    },
                ),
                None => final(self).status(schedule_id@).is_none(),
            },
    {
        let ghost keys0 = self.keys();
        match self.find(schedule_id) {
            Some(i) => {
                proof {
                    lemma_index_of(keys0, schedule_id@);
                }
                let slot = self.statuses.remove(i);
                let s = slot.status;
                self.statuses.insert(i, slot_with(slot.key, ScheduleStatus {
                    id: s.id,
                    name: s.name,
                    is_executing: true,
                    executing_task_index: Some(task_index),
                    last_execution_time: Some(now),
                    next_execution_time: s.next_execution_time,
                    enabled: s.enabled,
                    last_result: s.last_result,
                }));
                proof {
                    assert(self.keys() =~= keys0);
                    assert forall|other: Seq<char>| other != schedule_id@ implies self.status(other)
                        == old(self).status(other) by {
                        lemma_index_of(keys0, other);
                    }
                }
            },
            None => {},
        }
    }

    /// Marks a tracked schedule as executing task `task_index` since now.
    pub fn set_executing(&mut self, schedule_id: &str, task_index: usize)
        requires
            old(self).wf(),
        ensures
            final(self).wf(),
            forall|other: Seq<char>|
                other != schedule_id@ ==> final(self).status(other) == old(self).status(other),
            old(self).status(schedule_id@).is_some() == final(self).status(schedule_id@).is_some(),
            final(self).status(schedule_id@).is_some() ==> final(self).status(
                schedule_id@,
            ).unwrap().is_executing && final(self).status(schedule_id@).unwrap().executing_task_index
                == Some(task_index) && final(self).status(
                schedule_id@,
            ).unwrap().last_execution_time.is_some() && final(self).status(schedule_id@).unwrap().id
                == old(self).status(schedule_id@).unwrap().id && final(self).status(
                schedule_id@,
            ).unwrap().name == old(self).status(schedule_id@).unwrap().name,
    {
        let now: u64 = current_timestamp();
        self.set_executing_at(schedule_id, task_index, now);
    }

    /// Marks a tracked schedule as idle and records the result of its run:
    /// `success` or `failed`.
    pub fn set_finished(&mut self, schedule_id: &str, successful: bool)
        requires
            old(self).wf(),
        ensures
            final(self).wf(),
            forall|other: Seq<char>|
                other != schedule_id@ ==> final(self).status(other) == old(self).status(other),
            match old(self).status(schedule_id@) {
                Some(s) => {
                    let t = final(self).status(schedule_id@);
                    &&& t.is_some()
                    &&& !t.unwrap().is_executing
                    &&& t.unwrap().executing_task_index.is_none()
                    &&& t.unwrap().last_result.is_some()
                    &&& t.unwrap().last_result.unwrap()@ == result_text(successful)
                    &&& t.unwrap().id == s.id
                    &&& t.unwrap().name == s.name
                    &&& t.unwrap().enabled == s.enabled
                    &&& t.unwrap().last_execution_time == s.last_execution_time
                    &&& t.unwrap().next_execution_time == s.next_execution_time
                },
                None => final(self).status(schedule_id@).is_none(),
            },
    {
        let ghost keys0 = self.keys();
        match self.find(schedule_id) {
            Some(i) => {
                proof {
                    lemma_index_of(keys0, schedule_id@);
                }
                let slot = self.statuses.remove(i);
                let s = slot.status;
                let text = if successful {
                    String::from_str("success")
                } else {
                    String::from_str("failed")
                };
                self.statuses.insert(i, slot_with(slot.key, ScheduleStatus {
                    id: s.id,
                    name: s.name,
                    is_executing: false,
                    executing_task_index: None,
                    last_execution_time: s.last_execution_time,
                    next_execution_time: s.next_execution_time,
                    enabled: s.enabled,
                    last_result: Some(text),
                }));
                proof {
                    assert(self.keys() =~= keys0);
                    assert forall|other: Seq<char>| other != schedule_id@ implies self.status(other)
                        == old(self).status(other) by {
                        lemma_index_of(keys0, other);
                    }
                }
            },
            None => {},
        }
    }

    /// The status of a schedule.
    pub fn get_status(&self, schedule_id: &str) -> (r: Option<&ScheduleStatus>)
        ensures
            match r {
                Some(s) => self.status(schedule_id@) == Some(*s),
                None => self.status(schedule_id@).is_none(),
            },
    {
        match self.find(schedule_id) {
            Some(i) => Some(&self.statuses[i].status),
            None => None,
        }
    }

    /// Every tracked status with its schedule id.
    pub fn get_all_statuses(&self) -> (r: &Vec<TrackedStatus>)
        requires
            self.wf(),
        ensures
            r@.len() == self.len(),
            forall|i: int|
                0 <= i < r@.len() ==> self.status((#[trigger] r@[i]).key@) == Some(r@[i].status),
            forall|i: int, j: int| 0 <= i < j < r@.len() ==> r@[i].key@ != r@[j].key@,
    {
        proof {
            let keys = self.keys();
            assert forall|i: int| 0 <= i < self.statuses@.len() implies self.status(
                (#[trigger] self.statuses@[i]).key@,
            ) == Some(self.statuses@[i].status) by {
                crate::keyed::lemma_index_of_own(keys, i);
            }
            assert forall|i: int, j: int| 0 <= i < j < self.statuses@.len() implies self.statuses@[i].key@
                != self.statuses@[j].key@ by {
                assert(keys[i] == self.statuses@[i].key@ && keys[j] == self.statuses@[j].key@);
            }
        }
        &self.statuses
    }

    /// Forgets every schedule.
    pub fn clear(&mut self)
        ensures
            final(self).wf(),
            final(self).len() == 0,
            forall|id: Seq<char>| final(self).status(id).is_none(),
    {
        self.statuses = Vec::new();
        assert(self.keys() =~= Seq::<Seq<char>>::empty());
    }
}

fn slot_with(key: String, status: ScheduleStatus) -> (t: TrackedStatus)
    ensures
        t.key == key,
        t.status == status,
{
    TrackedStatus { key, status }
}

impl Default for ScheduleStatusTracker {
    fn default() -> (t: Self)
        ensures
            t.wf(),
            t.len() == 0,
    {
        ScheduleStatusTracker::new()
    }
}

} // verus!
