//! The lifecycle of a task as the store enforces it: the conditional claim
//! that elects a single owner, the healing reset at startup, the terminal
//! writes and the deletion guard.

use vstd::prelude::*;

verus! {

/// The persisted state of a task.
#[derive(Clone, Copy, Debug, PartialEq, Eq, Structural)]
pub enum TaskState {
    Todo,
    InProgress,
    Failed,
    Done,
}

/// The text under which a state is stored.
pub open spec fn state_text(s: TaskState) -> Seq<char> {
    match s {
        TaskState::Todo => "todo"@,
        TaskState::InProgress => "in_progress"@,
        TaskState::Failed => "failed"@,
        TaskState::Done => "done"@,
    }
}

/// The state stored under a text, if any.
pub open spec fn state_of_text(t: Seq<char>) -> Option<TaskState> {
    if t == "todo"@ {
        Some(TaskState::Todo)
    } else if t == "in_progress"@ {
        Some(TaskState::InProgress)
    } else if t == "failed"@ {
        Some(TaskState::Failed)
    } else if t == "done"@ {
        Some(TaskState::Done)
    } else {
        None
    }
}

/// Whether two strings hold the same characters.
pub fn same_text(a: &str, b: &str) -> (r: bool)
    ensures
        r == (a@ == b@),
{
    a.to_owned() == b.to_owned()
}

impl TaskState {
    pub fn as_str(&self) -> (r: &'static str)
        ensures
            r@ == state_text(*self),
    {
        match self {
            TaskState::Todo => "todo",
            TaskState::InProgress => "in_progress",
            TaskState::Failed => "failed",
            TaskState::Done => "done",
        }
    }

    /// Reads a stored state back; any other text is no state.
    pub fn parse(t: &str) -> (r: Option<TaskState>)
        ensures
            r == state_of_text(t@),
    {
        if same_text(t, "todo") {
            Some(TaskState::Todo)
        } else if same_text(t, "in_progress") {
            Some(TaskState::InProgress)
        } else if same_text(t, "failed") {
            Some(TaskState::Failed)
        } else if same_text(t, "done") {
            Some(TaskState::Done)
        } else {
            None
        }
    }
}

/// Reading back the text of a state gives that state.
pub proof fn lemma_state_text_round_trip(s: TaskState)
    ensures
        state_of_text(state_text(s)) == Some(s),
{
    reveal_strlit("todo");
    reveal_strlit("in_progress");
    reveal_strlit("failed");
    reveal_strlit("done");
    assert("todo"@[0] == 't' && "in_progress"@[0] == 'i');
    assert("failed"@[0] == 'f' && "done"@[0] == 'd');
}

/// The state after a claim: `todo` becomes `in_progress`, any other state stays.
pub open spec fn after_claim(s: TaskState) -> TaskState {
    if s == TaskState::Todo {
        TaskState::InProgress
    } else {
        s
    }
}

/// The number of rows a claim affects: one exactly when the task was `todo`.
pub open spec fn claim_rows(s: TaskState) -> nat {
    if s == TaskState::Todo {
        1
    } else {
        0
    }
}

/// The number of claims that win among `n` claims on one task, which the
/// store serialises one after another starting from state `s`.
pub open spec fn claim_wins(s: TaskState, n: nat) -> nat
    decreases n,
{
    if n == 0 {
        0
    } else {
        claim_rows(s) + claim_wins(after_claim(s), (n - 1) as nat)
    }
}

/// The state after the healing reset of a startup.
pub open spec fn after_heal(s: TaskState) -> TaskState {
    if s == TaskState::InProgress {
        TaskState::Todo
    } else {
        s
    }
}

/// Claims a task: the conditional update "set `in_progress` where still
/// `todo`". Returns the number of rows affected.
pub fn claim(state: &mut TaskState) -> (rows: u64)
    ensures
        *final(state) == after_claim(*old(state)),
        rows as nat == claim_rows(*old(state)),
{
    if *state == TaskState::Todo {
        *state = TaskState::InProgress;
        1
    } else {
        0
    }
}

/// Resets an interrupted claim: `in_progress` becomes `todo`. Returns the
/// number of rows affected.
pub fn heal(state: &mut TaskState) -> (rows: u64)
    ensures
        *final(state) == after_heal(*old(state)),
        rows == (if *old(state) == TaskState::InProgress { 1u64 } else { 0u64 }),
{
    if *state == TaskState::InProgress {
        *state = TaskState::Todo;
        1
    } else {
        0
    }
}

/// Marks a task whose deadline cannot be read as failed, provided nobody
/// claimed it yet. Returns the number of rows affected.
pub fn fail_unclaimed(state: &mut TaskState) -> (rows: u64)
    ensures
        *old(state) == TaskState::Todo ==> *final(state) == TaskState::Failed && rows == 1,
        *old(state) != TaskState::Todo ==> *final(state) == *old(state) && rows == 0,
{
    if *state == TaskState::Todo {
        *state = TaskState::Failed;
        1
    } else {
        0
    }
}

/// The terminal write of the owner of a claim.
pub fn finish(state: &mut TaskState, succeeded: bool)
    ensures
        *final(state) == (if succeeded { TaskState::Done } else { TaskState::Failed }),
{
    *state = if succeeded { TaskState::Done } else { TaskState::Failed };
}

/// Whether a task in this state may be deleted: never while a claim holds it.
pub fn may_delete(state: TaskState) -> (r: bool)
    ensures
        r == (state != TaskState::InProgress),
{
    state != TaskState::InProgress
}

/// Among two or more claims on one `todo` task exactly one wins; the others
/// affect no row.
pub proof fn lemma_single_claim_winner(n: nat)
    requires
        n >= 2,
    ensures
        claim_wins(TaskState::Todo, n) == 1,
{
    lemma_no_claim_wins_after_todo(TaskState::InProgress, (n - 1) as nat);
}

/// Once a task has left `todo`, no further claim wins.
pub proof fn lemma_no_claim_wins_after_todo(s: TaskState, n: nat)
    requires
        s != TaskState::Todo,
    ensures
        claim_wins(s, n) == 0,
    decreases n,
{
    if n > 0 {
        lemma_no_claim_wins_after_todo(after_claim(s), (n - 1) as nat);
    }
}

/// A task left `in_progress` by a crash is `todo` again after the healing
/// reset, and then exactly one of any number of claims on it wins: it runs
/// exactly once.
pub proof fn lemma_healed_task_runs_once(n: nat)
    requires
        n >= 1,
    ensures
        after_heal(TaskState::InProgress) == TaskState::Todo,
        claim_wins(after_heal(TaskState::InProgress), n) == 1,
{
    lemma_no_claim_wins_after_todo(TaskState::InProgress, (n - 1) as nat);
}

/// Whatever state a task is in, at most one of any number of claims wins.
pub proof fn lemma_at_most_one_claim_wins(s: TaskState, n: nat)
    ensures
        claim_wins(s, n) <= 1,
    decreases n,
{
    if n > 0 {
        lemma_no_claim_wins_after_todo(after_claim(s), (n - 1) as nat);
        if s != TaskState::Todo {
            lemma_at_most_one_claim_wins(after_claim(s), (n - 1) as nat);
        }
    }
}

} // verus!
