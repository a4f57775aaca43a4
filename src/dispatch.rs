//! The dispatcher: the single owner of the scheduling queue. Each event it is
//! handed is one of a submission, a possible release, or shutdown; the action
//! it returns tells its runner what to do.

use vstd::prelude::*;
use crate::queue::ScheduleQueue;
use crate::task::Task;

verus! {

/// The absolute release instant of a submission: `delay` after `now`,
/// saturating at the largest instant.
pub open spec fn release_instant(now: u64, delay: u64) -> u64 {
    if now + delay > u64::MAX {
        u64::MAX
    } else {
        (now + delay) as u64
    }
}

/// An event the dispatcher handles.
pub enum DispatchEvent {
    /// A task was submitted, to be released `delay_ms` from now.
    Submitted { delay_ms: u64, task: Task },
    /// The earliest release instant may have come.
    Due,
    /// The process shuts down.
    Shutdown,
}

/// What the runner does after an event.
pub enum DispatchAction {
    /// The submission was queued.
    Queued,
    /// Start one executor for this released snapshot and do not wait for it.
    Spawn(Task),
    /// Nothing is due yet.
    Idle,
    /// Stop the loop.
    Stop,
}

pub struct Dispatcher {
    queue: ScheduleQueue,
    running: bool,
}

impl View for Dispatcher {
    type V = Seq<(u64, Task)>;

    closed spec fn view(&self) -> Seq<(u64, Task)> {
        self.queue@
    }
}

impl Dispatcher {
    pub closed spec fn wf(&self) -> bool {
        self.queue.wf()
    }

    pub closed spec fn is_running(&self) -> bool {
        self.running
    }

    pub fn new() -> (d: Dispatcher)
        ensures
            d.wf(),
            d.is_running(),
            d@ == Seq::<(u64, Task)>::empty(),
    {
        Dispatcher { queue: ScheduleQueue::new(), running: true }
    }

    /// Whether the loop still runs.
    pub fn running(&self) -> (r: bool)
        ensures
            r == self.is_running(),
    {
        self.running
    }

    /// The earliest release instant, if any snapshot waits.
    pub fn next_release(&self) -> (r: Option<u64>)
        requires
            self.wf(),
        ensures
            self@.len() == 0 ==> r is None,
            self@.len() > 0 ==> r == Some(self@[0].0),
            r matches Some(t) ==> forall|k: int| 0 <= k < self@.len() ==> t <= self@[k].0,
    {
        self.queue.next_release()
    }

    /// The number of waiting snapshots.
    pub fn pending(&self) -> (r: usize)
        ensures
            r == self@.len(),
    {
        self.queue.len()
    }

    /// Handles one event at instant `now`. After shutdown every event stops.
    pub fn handle(&mut self, ev: DispatchEvent, now: u64) -> (a: DispatchAction)
        requires
            old(self).wf(),
        ensures
            final(self).wf(),
            !old(self).is_running() ==> a is Stop && *final(self) == *old(self),
            old(self).is_running() ==> match ev {
                DispatchEvent::Submitted { delay_ms, task } => {
                    &&& a is Queued
                    &&& final(self).is_running()
                    &&& exists|i: int|
                        0 <= i <= old(self)@.len() && final(self)@ == old(self)@.insert(
                            i,
                            (release_instant(now, delay_ms), task),
                        ) && (forall|k: int|
                            0 <= k < i ==> old(self)@[k].0 <= release_instant(now, delay_ms))
                            && (forall|k: int|
                            i <= k < old(self)@.len() ==> old(self)@[k].0 > release_instant(
                                now,
                                delay_ms,
                            ))
                },
                DispatchEvent::Due => {
                    &&& final(self).is_running()
                    &&& if old(self)@.len() > 0 && old(self)@[0].0 <= now {
                        &&& a == DispatchAction::Spawn(old(self)@[0].1)
                        &&& final(self)@ == old(self)@.drop_first()
                        &&& forall|k: int|
                            0 <= k < old(self)@.len() ==> old(self)@[0].0 <= #[trigger] old(self)@[k].0
                    } else {
                        a is Idle && final(self)@ == old(self)@
                    }
                },
                DispatchEvent::Shutdown => {
                    &&& a is Stop
                    &&& !final(self).is_running()
                    &&& final(self)@ == old(self)@
                },
            },
    {
        if !self.running {
            return DispatchAction::Stop;
        }
        match ev {
            DispatchEvent::Submitted { delay_ms, task } => {
                let at = if delay_ms > u64::MAX - now {
                    u64::MAX
                } else {
                    now + delay_ms
                };
                self.queue.insert(at, task);
                DispatchAction::Queued
            },
            DispatchEvent::Due => match self.queue.pop_due(now) {
                Some((_, task)) => DispatchAction::Spawn(task),
                None => DispatchAction::Idle,
            },
            DispatchEvent::Shutdown => {
                self.running = false;
                DispatchAction::Stop
            },
        }
    }
}

} // verus!
