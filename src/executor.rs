//! The per-task executor as a state machine. Whoever runs it performs each
//! step it asks for (a sleep, the claim, a POST, the hash derivation, a state
//! write) and reports back what came of it; the machine decides the next step.
//!
//! Both kinds share the skeleton Wait, Claim, Work, Terminal. A webhook's work
//! is a first attempt and up to five retries after exponential backoff; a hash
//! task's work is a single derivation.

use vstd::prelude::*;
use crate::lifecycle::{TaskState, after_claim, claim_rows};
use crate::task::{Task, TaskKind};
use crate::timing::{read_deadline, rfc3339_instant};

verus! {

/// The increment in which an executor waits for its deadline.
pub const TICK_MS: u64 = 100;

/// The backoff before the first retry; it doubles before each further one.
pub const FIRST_BACKOFF_MS: u64 = 100;

/// The number of retries after the first webhook attempt.
pub const MAX_RETRIES: u64 = 5;

/// Where an executor stands.
#[derive(Clone, Copy, Debug, PartialEq, Eq, Structural)]
pub enum Phase {
    /// Waiting for the deadline.
    Waiting,
    /// The claim was issued; its outcome is awaited.
    Claiming,
    /// The claim was won; the action runs.
    Working,
    /// Nothing more is to be done.
    Over,
}

/// What the runner reports after performing a step.
#[derive(Clone, Copy, Debug, PartialEq, Eq, Structural)]
pub enum Report {
    /// The time now, in milliseconds since the Unix epoch.
    Clock(i64),
    /// The claim affected this many rows.
    ClaimRows(u64),
    /// The claim could not be issued.
    ClaimError,
    /// A webhook attempt received a response, of any status.
    Responded,
    /// A webhook attempt received no response.
    Unreachable,
    /// The hash was derived.
    Hashed,
    /// The hash derivation failed.
    HashFailed,
}

/// The next step for the runner.
#[derive(Clone, Copy, Debug, PartialEq, Eq, Structural)]
pub enum Step {
    /// Sleep this many milliseconds, then report the clock.
    Sleep(u64),
    /// Issue the conditional claim and report its outcome.
    Claim,
    /// Send the POST request and report whether a response came.
    Post,
    /// Sleep this many milliseconds, then send the POST request again.
    RetryAfter(u64),
    /// Derive the hash away from the dispatch loop and report the outcome.
    Derive,
    /// Write this terminal state; the executor is over.
    Finish(TaskState),
    /// Mark the task failed where it is still `todo`: its deadline cannot be
    /// read. The executor is over.
    FailUnclaimed,
    /// Return without any further effect.
    Stop,
}

/// The backoff before retry number `n + 1`.
pub open spec fn backoff(n: nat) -> nat
    decreases n,
{
    if n == 0 {
        FIRST_BACKOFF_MS as nat
    } else {
        2 * backoff((n - 1) as nat)
    }
}

/// The executor of one task snapshot.
#[derive(Clone, Copy, Debug)]
pub struct Executor {
    pub kind: TaskKind,
    /// The deadline in milliseconds since the Unix epoch, if it could be read.
    pub deadline: Option<i64>,
    pub phase: Phase,
    /// The webhook attempts made so far.
    pub attempts: u64,
    /// The backoff before the next retry.
    pub backoff_ms: u64,
    /// The total backoff slept so far.
    pub waited_ms: u64,
}

impl Executor {
    pub open spec fn wf(&self) -> bool {
        &&& self.attempts <= MAX_RETRIES + 1
        &&& self.attempts >= 1 ==> self.backoff_ms == backoff((self.attempts - 1) as nat)
            && self.waited_ms + FIRST_BACKOFF_MS == self.backoff_ms
        &&& self.attempts == 0 ==> self.backoff_ms == FIRST_BACKOFF_MS && self.waited_ms == 0
        &&& self.phase == Phase::Working && self.kind == TaskKind::Webhook ==> self.attempts >= 1
        &&& self.phase == Phase::Waiting || self.phase == Phase::Claiming ==> self.attempts == 0
    }

    /// The executor after it has given up or finished.
    pub open spec fn over(self) -> Executor {
        Executor { phase: Phase::Over, ..self }
    }

    /// The decision on a report: the executor's next state and step.
    pub open spec fn next(self, r: Report) -> (Executor, Step) {
        match self.phase {
            Phase::Waiting => match r {
                Report::Clock(now) => match self.deadline {
                    None => (self.over(), Step::FailUnclaimed),
                    Some(d) => if now < d {
                        (self, Step::Sleep(TICK_MS))
                    } else {
                        (Executor { phase: Phase::Claiming, ..self }, Step::Claim)
                    },
                },
                _ => (self.over(), Step::Stop),
            },
            Phase::Claiming => match r {
                Report::ClaimRows(n) => if n == 1 {
                    match self.kind {
                        TaskKind::Webhook => (
                            Executor { phase: Phase::Working, attempts: 1, ..self },
                            Step::Post,
                        ),
                        TaskKind::Hash => (Executor { phase: Phase::Working, ..self }, Step::Derive),
                    }
                } else {
                    (self.over(), Step::Stop)
                },
                _ => (self.over(), Step::Stop),
            },
            Phase::Working => match (self.kind, r) {
                (TaskKind::Webhook, Report::Responded) => (
                    self.over(),
                    Step::Finish(TaskState::Done),
                ),
                (TaskKind::Webhook, Report::Unreachable) => if self.attempts <= MAX_RETRIES {
                    (
                        Executor {
                            attempts: (self.attempts + 1) as u64,
                            backoff_ms: (2 * self.backoff_ms) as u64,
                            waited_ms: (self.waited_ms + self.backoff_ms) as u64,
                            ..self
                        },
                        Step::RetryAfter(self.backoff_ms),
                    )
                } else {
                    (self.over(), Step::Finish(TaskState::Failed))
                },
                (TaskKind::Hash, Report::Hashed) => (self.over(), Step::Finish(TaskState::Done)),
                (TaskKind::Hash, Report::HashFailed) => (
                    self.over(),
                    Step::Finish(TaskState::Failed),
                ),
                _ => (self.over(), Step::Stop),
            },
            Phase::Over => (self, Step::Stop),
        }
    }

    /// A fresh executor for a released snapshot; it first reports the clock.
    pub fn new(task: &Task) -> (e: Executor)
        ensures
            e.wf(),
            e.kind == task.kind_spec(),
            e.phase == Phase::Waiting,
            e.attempts == 0,
            e.waited_ms == 0,
            match rfc3339_instant(task.execution_time_spec()) {
                Some((m, _)) => e.deadline == Some(m as i64) && m == m as i64,
                None => e.deadline is None,
            },
    {
        let deadline = match read_deadline(task.execution_time().as_str()) {
            Ok(t) => Some(t.millis),
            Err(_) => None,
        };
        Executor {
            kind: task.kind(),
            deadline,
            phase: Phase::Waiting,
            attempts: 0,
            backoff_ms: FIRST_BACKOFF_MS,
            waited_ms: 0,
        }
    }

    /// Takes a report and returns the next step.
    pub fn step(&mut self, r: Report) -> (s: Step)
        requires
            old(self).wf(),
        ensures
            final(self).wf(),
            (*final(self), s) == old(self).next(r),
    {
        let cur = *self;
        match self.phase {
            Phase::Waiting => match r {
                Report::Clock(now) => match self.deadline {
                    None => {
                        self.phase = Phase::Over;
                        Step::FailUnclaimed
                    },
                    Some(d) => if now < d {
                        Step::Sleep(TICK_MS)
                    } else {
                        self.phase = Phase::Claiming;
                        Step::Claim
                    },
                },
                _ => {
                    self.phase = Phase::Over;
                    Step::Stop
                },
            },
            Phase::Claiming => match r {
                Report::ClaimRows(n) => if n == 1 {
                    self.phase = Phase::Working;
                    match self.kind {
                        TaskKind::Webhook => {
                            self.attempts = 1;
                            Step::Post
                        },
                        TaskKind::Hash => Step::Derive,
                    }
                } else {
                    self.phase = Phase::Over;
                    Step::Stop
                },
                _ => {
                    self.phase = Phase::Over;
                    Step::Stop
                },
            },
            Phase::Working => match (self.kind, r) {
                (TaskKind::Webhook, Report::Responded) => {
                    self.phase = Phase::Over;
                    Step::Finish(TaskState::Done)
                },
                (TaskKind::Webhook, Report::Unreachable) => if self.attempts <= MAX_RETRIES {
                    proof {
                        lemma_backoff_bound((self.attempts - 1) as nat);
                    }
                    let wait = self.backoff_ms;
                    self.attempts = self.attempts + 1;
                    self.waited_ms = self.waited_ms + wait;
                    self.backoff_ms = 2 * wait;
                    Step::RetryAfter(wait)
                } else {
                    self.phase = Phase::Over;
                    Step::Finish(TaskState::Failed)
                },
                (TaskKind::Hash, Report::Hashed) => {
                    self.phase = Phase::Over;
                    Step::Finish(TaskState::Done)
                },
                (TaskKind::Hash, Report::HashFailed) => {
                    self.phase = Phase::Over;
                    Step::Finish(TaskState::Failed)
                },
                _ => {
                    self.phase = Phase::Over;
                    Step::Stop
                },
            },
            Phase::Over => Step::Stop,
        }
    }
}

/// The backoff grows as a power of two and stays small for the retries made.
proof fn lemma_backoff_bound(n: nat)
    requires
        n < MAX_RETRIES,
    ensures
        FIRST_BACKOFF_MS <= backoff(n) <= 1600,
{
    reveal_with_fuel(backoff, 5);
    if n == 0 {
    } else if n == 1 {
    } else if n == 2 {
    } else if n == 3 {
    } else {
        assert(backoff(4) == 1600);
    }
}

/// A webhook executor gives up only after the first attempt and all five
/// retries went unanswered, having slept the whole backoff
/// 100 + 200 + 400 + 800 + 1600 ms in between.
pub proof fn lemma_exhaustion_after_full_backoff(e: Executor)
    requires
        e.wf(),
        e.phase == Phase::Working,
        e.kind == TaskKind::Webhook,
        e.next(Report::Unreachable).1 == Step::Finish(TaskState::Failed),
    ensures
        e.attempts == MAX_RETRIES + 1,
        e.waited_ms == 100 + 200 + 400 + 800 + 1600,
{
    assert(backoff(5) == 3200) by {
        reveal_with_fuel(backoff, 6);
    }
}

/// Of two executors released for the same snapshot, whose claims the store
/// serialises starting from any state `s`, at most one goes on to the
/// action; one whose claim affected no row stops without any effect.
pub proof fn lemma_duplicate_release(e1: Executor, e2: Executor, s: TaskState)
    requires
        e1.phase == Phase::Claiming,
        e2.phase == Phase::Claiming,
    ensures
        !(e1.next(Report::ClaimRows(claim_rows(s) as u64)).0.phase == Phase::Working
            && e2.next(Report::ClaimRows(claim_rows(after_claim(s)) as u64)).0.phase
            == Phase::Working),
        e1.next(Report::ClaimRows(0)) == (e1.over(), Step::Stop),
        e2.next(Report::ClaimRows(0)) == (e2.over(), Step::Stop),
{
}

} // verus!
