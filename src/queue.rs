//! The scheduling queue: task snapshots keyed by an absolute release instant,
//! released one at a time in non-decreasing order of that instant.

use vstd::prelude::*;
use crate::task::Task;

verus! {

/// Whether release instants never decrease along the sequence.
pub open spec fn release_ordered(s: Seq<(u64, Task)>) -> bool {
    forall|i: int, j: int| 0 <= i < j < s.len() ==> s[i].0 <= s[j].0
}

/// Snapshots waiting for their release, earliest first. Among equal release
/// instants the one inserted first comes first.
pub struct ScheduleQueue {
    entries: Vec<(u64, Task)>,
}

impl View for ScheduleQueue {
    type V = Seq<(u64, Task)>;

    closed spec fn view(&self) -> Seq<(u64, Task)> {
        self.entries@
    }
}

impl ScheduleQueue {
    pub open spec fn wf(&self) -> bool {
        release_ordered(self@)
    }

    pub fn new() -> (q: ScheduleQueue)
        ensures
            q@ == Seq::<(u64, Task)>::empty(),
            q.wf(),
    {
        ScheduleQueue { entries: Vec::new() }
    }

    pub fn len(&self) -> (r: usize)
        ensures
            r == self@.len(),
    {
        self.entries.len()
    }

    pub fn is_empty(&self) -> (r: bool)
        ensures
            r == (self@.len() == 0),
    {
        self.entries.len() == 0
    }

    /// Schedules `task` for release at `release_at`, after every snapshot
    /// released no later than that.
    pub fn insert(&mut self, release_at: u64, task: Task)
        requires
            old(self).wf(),
        ensures
            final(self).wf(),
            exists|i: int|
                0 <= i <= old(self)@.len() && final(self)@ == old(self)@.insert(
                    i,
                    (release_at, task),
                ) && (forall|k: int| 0 <= k < i ==> old(self)@[k].0 <= release_at) && (forall|
                    k: int,
                | i <= k < old(self)@.len() ==> old(self)@[k].0 > release_at),
    {
        let mut i: usize = 0;
        while i < self.entries.len() && self.entries[i].0 <= release_at
            invariant
                0 <= i <= self@.len(),
                forall|k: int| 0 <= k < i ==> self@[k].0 <= release_at,
            decreases self@.len() - i,
        {
            i = i + 1;
        }
        proof {
            assert forall|k: int| i <= k < self@.len() implies self@[k].0 > release_at by {
                if k > i {
                    assert(self@[i as int].0 <= self@[k].0);
                }
            }
        }
        self.entries.insert(i, (release_at, task));
        proof {
            assert(final(self)@ == old(self)@.insert(i as int, (release_at, task)));
        }
    }

    /// The earliest release instant, if any snapshot waits.
    pub fn next_release(&self) -> (r: Option<u64>)
        requires
            self.wf(),
        ensures
            self@.len() == 0 ==> r is None,
            self@.len() > 0 ==> r == Some(self@[0].0),
            r matches Some(t) ==> forall|k: int| 0 <= k < self@.len() ==> t <= self@[k].0,
    {
        if self.entries.len() == 0 {
            None
        } else {
            Some(self.entries[0].0)
        }
    }

    /// Releases the earliest snapshot if its instant has come by `now`.
    pub fn pop_due(&mut self, now: u64) -> (r: Option<(u64, Task)>)
        requires
            old(self).wf(),
        ensures
            final(self).wf(),
            old(self)@.len() > 0 && old(self)@[0].0 <= now ==> r == Some(old(self)@[0])
                && final(self)@ == old(self)@.drop_first(),
            !(old(self)@.len() > 0 && old(self)@[0].0 <= now) ==> r is None && final(self)@
                == old(self)@,
            r matches Some(e) ==> e.0 <= now && forall|k: int|
                0 <= k < final(self)@.len() ==> e.0 <= final(self)@[k].0,
    {
        if self.entries.len() > 0 && self.entries[0].0 <= now {
            let e = self.entries.remove(0);
            proof {
                assert(final(self)@ =~= old(self)@.drop_first());
                assert forall|k: int| 0 <= k < final(self)@.len() implies e.0
                    <= final(self)@[k].0 by {
                    assert(old(self)@[k + 1] == final(self)@[k]);
                }
            }
            Some(e)
        } else {
            None
        }
    }
}

} // verus!
